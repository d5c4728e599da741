//! Command-line parsing: options, the requested categories, and the
//! implicit/explicit mode decision.
//!
//! The arguments (without the program name) are scanned left to right:
//! `-h` asks for usage, `-o` takes the output file, `-t` the capture window
//! in seconds, and anything else must name a catalog category.  The first
//! offending argument stops the scan.  No category named means every
//! category, in implicit mode; one or more named means exactly those, in
//! explicit mode, in catalog order without duplicates.

use vstd::prelude::*;
use vstd::string::StringExecFns;
use crate::catalog::Category;
use crate::text::{parse_u32, spec_parse_u32, str_eq};

verus! {

/// Why argument parsing stopped.  Each case ends in the usage text and a
/// non-zero exit.
#[derive(Debug, PartialEq, Eq)]
pub enum ArgError {
    /// `-h` was given.
    Help,
    /// `-o` with no file name after it.
    MissingOutput,
    /// `-t` with no seconds value after it, or one that does not parse.
    BadTimeout,
    /// An argument that names no catalog category.
    UnknownCategory { name: String },
}

/// The mathematical value of an [`ArgError`].
#[verifier::ext_equal]
pub enum ArgErrorV {
    Help,
    MissingOutput,
    BadTimeout,
    UnknownCategory { name: Seq<char> },
}

impl View for ArgError {
    type V = ArgErrorV;

    open spec fn view(&self) -> ArgErrorV {
        match self {
            ArgError::Help => ArgErrorV::Help,
            ArgError::MissingOutput => ArgErrorV::MissingOutput,
            ArgError::BadTimeout => ArgErrorV::BadTimeout,
            ArgError::UnknownCategory { name } => ArgErrorV::UnknownCategory { name: name@ },
        }
    }
}

/// One parsed invocation, immutable once parsed.
#[derive(Debug)]
pub struct Config {
    pub output: String,
    pub timeout: u32,
    pub enabled_categories: Vec<usize>,
    pub explicit: bool,
}

/// `v` lists the members of `s` in strictly increasing order, each exactly
/// once.
pub open spec fn lists_set(v: Seq<usize>, s: Set<int>) -> bool {
    &&& forall|a: int, b: int| 0 <= a < b < v.len() ==> (#[trigger] v[a]) < (#[trigger] v[b])
    &&& forall|a: int| 0 <= a < v.len() ==> s.contains((#[trigger] v[a]) as int)
    &&& forall|x: int|
        s.contains(x) ==> exists|a: int| 0 <= a < v.len() && (#[trigger] v[a]) as int == x
}

/// The least catalog index at or after `j` whose category is named `name`.
pub open spec fn spec_find_category(cats: Seq<Category>, name: Seq<char>, j: int) -> Option<int>
    decreases cats.len() - j,
{
    if j < 0 || j >= cats.len() {
        None
    } else if cats[j].name@ == name {
        Some(j)
    } else {
        spec_find_category(cats, name, j + 1)
    }
}

/// The scan from argument `i` on, carrying the output path, timeout and
/// selected category indices accumulated so far.
pub open spec fn spec_scan(
    cats: Seq<Category>,
    args: Seq<Seq<char>>,
    i: int,
    output: Seq<char>,
    timeout: u32,
    sel: Set<int>,
) -> Result<(Seq<char>, u32, Set<int>), ArgErrorV>
    decreases args.len() - i,
{
    if i < 0 || i >= args.len() {
        Ok((output, timeout, sel))
    } else if args[i] == "-h"@ {
        Err(ArgErrorV::Help)
    } else if args[i] == "-o"@ {
        if i + 1 < args.len() {
            spec_scan(cats, args, i + 2, args[i + 1], timeout, sel)
        } else {
            Err(ArgErrorV::MissingOutput)
        }
    } else if args[i] == "-t"@ {
        if i + 1 < args.len() && spec_parse_u32(args[i + 1]) is Some {
            spec_scan(cats, args, i + 2, output, spec_parse_u32(args[i + 1]).unwrap(), sel)
        } else {
            Err(ArgErrorV::BadTimeout)
        }
    } else {
        match spec_find_category(cats, args[i], 0) {
            Some(j) => spec_scan(cats, args, i + 1, output, timeout, sel.insert(j)),
            None => Err(ArgErrorV::UnknownCategory { name: args[i] }),
        }
    }
}

fn find_category(cats: &Vec<Category>, name: &str) -> (r: Option<usize>)
    ensures
        match r {
            Some(j) => spec_find_category(cats@, name@, 0) == Some(j as int) && j < cats@.len(),
            None => spec_find_category(cats@, name@, 0) is None,
        },
{
    let n = cats.len();
    let mut j: usize = 0;
    while j < n
        invariant
            n == cats@.len(),
            j <= n,
            spec_find_category(cats@, name@, 0) == spec_find_category(cats@, name@, j as int),
        decreases n - j,
    {
        if str_eq(cats[j].name.as_str(), name) {
            return Some(j);
        }
        j = j + 1;
    }
    None
}

/// Parse the arguments (the program name already stripped) against the
/// catalog.  On success the configuration holds the last `-o` and `-t`
/// values (defaults `tmp.trace` and 5), and the requested category indices:
/// every index, in catalog order, when none was named (implicit mode), else
/// exactly the named ones, deduplicated, in catalog order (explicit mode).
pub fn parse_args(cats: &Vec<Category>, args: &Vec<String>) -> (r: Result<Config, ArgError>)
    ensures
        ({
            let scan = spec_scan(
                cats@,
                args.deep_view(),
                0,
                "tmp.trace"@,
                5u32,
                Set::<int>::empty(),
            );
            match r {
                Ok(c) => scan matches Ok(t) && {
                    &&& c.output@ == t.0
                    &&& c.timeout == t.1
                    &&& c.explicit == (exists|x: int| t.2.contains(x))
                    &&& !c.explicit ==> c.enabled_categories@.len() == cats@.len() && (forall|
                        j: int,
                    |
                        0 <= j < cats@.len() ==> (#[trigger] c.enabled_categories@[j]) as int == j)
                    &&& c.explicit ==> lists_set(c.enabled_categories@, t.2)
                },
                Err(e) => scan matches Err(ev) && e@ == ev,
            }
        }),
{
    let mut output = String::from_str("tmp.trace");
    let mut timeout: u32 = 5;
    let ncats = cats.len();
    let mut marks: Vec<bool> = Vec::new();
    let mut j0: usize = 0;
    while j0 < ncats
        invariant
            j0 <= ncats,
            marks@.len() == j0,
            forall|k: int| 0 <= k < j0 ==> !(#[trigger] marks@[k]),
        decreases ncats - j0,
    {
        marks.push(false);
        j0 = j0 + 1;
    }
    let ghost mut sel = Set::<int>::empty();

    let n = args.len();
    let mut i: usize = 0;
    while i < n
        invariant
            n == args@.len(),
            ncats == cats@.len(),
            marks@.len() == ncats,
            i <= n,
            forall|k: int| 0 <= k < ncats ==> ((#[trigger] marks@[k]) <==> sel.contains(k)),
            forall|x: int| sel.contains(x) ==> 0 <= x < ncats,
            spec_scan(cats@, args.deep_view(), 0, "tmp.trace"@, 5u32, Set::<int>::empty())
                == spec_scan(cats@, args.deep_view(), i as int, output@, timeout, sel),
        decreases n - i,
    {
        proof {
            assert(args.deep_view()[i as int] == args@[i as int]@);
        }
        let a = &args[i];
        if str_eq(a.as_str(), "-h") {
            return Err(ArgError::Help);
        } else if str_eq(a.as_str(), "-o") {
            if i + 1 < n {
                proof {
                    assert(args.deep_view()[i + 1] == args@[i + 1]@);
                }
                output = args[i + 1].clone();
                i = i + 2;
            } else {
                return Err(ArgError::MissingOutput);
            }
        } else if str_eq(a.as_str(), "-t") {
            if i + 1 < n {
                proof {
                    assert(args.deep_view()[i + 1] == args@[i + 1]@);
                }
                match parse_u32(args[i + 1].as_str()) {
                    Some(t) => {
                        timeout = t;
                        i = i + 2;
                    },
                    None => {
                        return Err(ArgError::BadTimeout);
                    },
                }
            } else {
                return Err(ArgError::BadTimeout);
            }
        } else {
            match find_category(cats, a.as_str()) {
                Some(j) => {
                    marks[j] = true;
                    proof {
                        sel = sel.insert(j as int);
                    }
                    i = i + 1;
                },
                None => {
                    return Err(ArgError::UnknownCategory { name: a.clone() });
                },
            }
        }
    }

    let mut any = false;
    let mut jj: usize = 0;
    while jj < ncats
        invariant
            ncats == cats@.len(),
            marks@.len() == ncats,
            jj <= ncats,
            forall|k: int| 0 <= k < ncats ==> ((#[trigger] marks@[k]) <==> sel.contains(k)),
            any == (exists|x: int| 0 <= x < jj && sel.contains(x)),
        decreases ncats - jj,
    {
        if marks[jj] {
            any = true;
        }
        jj = jj + 1;
    }
    proof {
        assert(any == (exists|x: int| sel.contains(x))) by {
            if exists|x: int| sel.contains(x) {
                let x = choose|x: int| sel.contains(x);
                assert(0 <= x < ncats);
            }
        }
    }

    let mut enabled: Vec<usize> = Vec::new();
    if any {
        let mut j: usize = 0;
        while j < ncats
            invariant
                ncats == cats@.len(),
                marks@.len() == ncats,
                j <= ncats,
                forall|k: int| 0 <= k < ncats ==> ((#[trigger] marks@[k]) <==> sel.contains(k)),
                forall|a: int, b: int|
                    0 <= a < b < enabled@.len() ==> (#[trigger] enabled@[a]) < (
                    #[trigger] enabled@[b]),
                forall|a: int|
                    0 <= a < enabled@.len() ==> (#[trigger] enabled@[a]) < j && sel.contains(
                        enabled@[a] as int,
                    ),
                forall|x: int|
                    0 <= x < j && sel.contains(x) ==> exists|a: int|
                        0 <= a < enabled@.len() && (#[trigger] enabled@[a]) as int == x,
            decreases ncats - j,
        {
            if marks[j] {
                let ghost e0 = enabled@;
                enabled.push(j);
                proof {
                    assert(enabled@[e0.len() as int] == j);
                    assert(forall|x: int|
                        0 <= x < j && sel.contains(x) ==> exists|a: int|
                            0 <= a < enabled@.len() && (#[trigger] enabled@[a]) as int == x) by {
                        assert(forall|a: int|
                            0 <= a < e0.len() ==> enabled@[a] == #[trigger] e0[a]);
                    }
                }
            }
            j = j + 1;
        }
        proof {
            let scan = spec_scan(
                cats@,
                args.deep_view(),
                0,
                "tmp.trace"@,
                5u32,
                Set::<int>::empty(),
            );
            assert(scan == spec_scan(cats@, args.deep_view(), i as int, output@, timeout, sel));
            assert(scan matches Ok(t) && t.0 == output@ && t.1 == timeout && t.2 == sel);
            assert(lists_set(enabled@, sel)) by {
                assert(forall|x: int|
                    #[trigger] sel.contains(x) ==> exists|a: int|
                        0 <= a < enabled@.len() && (#[trigger] enabled@[a]) as int == x);
            }
        }
        Ok(Config { output, timeout, enabled_categories: enabled, explicit: true })
    } else {
        let mut j: usize = 0;
        while j < ncats
            invariant
                j <= ncats,
                enabled@.len() == j,
                forall|k: int| 0 <= k < j ==> (#[trigger] enabled@[k]) as int == k,
            decreases ncats - j,
        {
            enabled.push(j);
            j = j + 1;
        }
        Ok(Config { output, timeout, enabled_categories: enabled, explicit: false })
    }
}

} // verus!
