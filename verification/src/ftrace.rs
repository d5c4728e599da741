//! The tracer handle: one bound tracing-filesystem root plus a latched
//! `(error kind, failing path)` pair, and builders for the concrete file
//! operations a capture session performs under that root.
//!
//! The handle does no file I/O itself.  An accessor (the caller) performs
//! each operation and reports failures back through [`Tracer::path_err`] as a
//! classified [`ErrKind`]; existence probes are likewise handed in as
//! `Option<ErrKind>` (`None` meaning the path exists and is accessible).

use vstd::prelude::*;
use vstd::string::StringExecFns;

verus! {

/// Classification of an accessor failure, as retained for later inspection.
#[derive(Clone, Copy, Debug, PartialEq, Eq, Structural)]
pub enum ErrKind {
    /// The path (mount point, event directory, file) is absent.
    NotFound,
    /// The path exists but may not be touched.
    PermissionDenied,
    /// Any other I/O failure.
    Other,
}

/// A concrete file operation for the accessor to perform.  Paths are always
/// full paths (the tracer's root already joined in by the builder).
#[derive(Debug, PartialEq, Eq)]
pub enum FsOp {
    /// Probe whether `path` exists and is accessible.
    Test { path: String },
    /// Truncate the file at `path` to empty.
    Truncate { path: String },
    /// Write `val` to the file at `path`.
    Write { path: String, val: String },
    /// Read the whole file at `path` as text.
    Read { path: String },
}

/// The mathematical value of an [`FsOp`]: the same operation over character
/// sequences.
#[verifier::ext_equal]
pub enum FsOpV {
    Test { path: Seq<char> },
    Truncate { path: Seq<char> },
    Write { path: Seq<char>, val: Seq<char> },
    Read { path: Seq<char> },
}

impl View for FsOp {
    type V = FsOpV;

    open spec fn view(&self) -> FsOpV {
        match self {
            FsOp::Test { path } => FsOpV::Test { path: path@ },
            FsOp::Truncate { path } => FsOpV::Truncate { path: path@ },
            FsOp::Write { path, val } => FsOpV::Write { path: path@, val: val@ },
            FsOp::Read { path } => FsOpV::Read { path: path@ },
        }
    }
}

impl DeepView for FsOp {
    type V = FsOpV;

    open spec fn deep_view(&self) -> FsOpV {
        self.view()
    }
}

impl FsOpV {
    /// The path an operation touches, whatever its kind.
    pub open spec fn target(self) -> Seq<char> {
        match self {
            FsOpV::Test { path } => path,
            FsOpV::Truncate { path } => path,
            FsOpV::Write { path, val: _ } => path,
            FsOpV::Read { path } => path,
        }
    }
}

/// The value written to an enable file: `"1"` turns tracing on, `"0"` off.
pub open spec fn spec_bool_str(b: bool) -> Seq<char> {
    if b {
        "1"@
    } else {
        "0"@
    }
}

/// Joining a path under a root directory.  An unbound (empty) root leaves the
/// path as it stands.
pub open spec fn spec_full_path(root: Seq<char>, rel: Seq<char>) -> Seq<char> {
    if root.len() == 0 {
        rel
    } else {
        root + "/"@ + rel
    }
}

pub fn bool_to_str(b: bool) -> (r: &'static str)
    ensures
        r@ == spec_bool_str(b),
{
    match b {
        true => "1",
        false => "0",
    }
}

/// The mutable handle bound to one resolved tracing-filesystem root, plus the
/// latched first failure of the current phase.
pub struct Tracer {
    tracefs: String,
    last_err: Option<(ErrKind, String)>,
}

impl Tracer {
    /// The tracing-filesystem root this handle is bound to; empty until
    /// [`Tracer::set_tracefs`] succeeds.
    pub closed spec fn root(&self) -> Seq<char> {
        self.tracefs@
    }

    /// The latched failure: the classified error and the full path on which
    /// it occurred.
    pub closed spec fn err(&self) -> Option<(ErrKind, Seq<char>)> {
        match self.last_err {
            Some((k, ref p)) => Some((k, p@)),
            None => None,
        }
    }

    /// The full path of `rel` under this handle's root.
    pub open spec fn spec_path(&self, rel: Seq<char>) -> Seq<char> {
        spec_full_path(self.root(), rel)
    }

    pub fn new() -> (r: Tracer)
        ensures
            r.root() == Seq::<char>::empty(),
            r.err() is None,
    {
        Tracer { tracefs: String::new(), last_err: None }
    }

    /// Bind this handle to the root `tracefs`, given the accessor's probe of
    /// that root's `trace` file.  A successful probe binds the root and
    /// clears the latch; a failed one leaves the root alone and latches the
    /// probe's error against the probed path.
    pub fn set_tracefs(&mut self, tracefs: &str, probe: Option<ErrKind>)
        ensures
            probe is None ==> final(self).root() == tracefs@ && final(self).err() is None,
            probe matches Some(k) ==> final(self).root() == old(self).root() && final(self).err()
                == Some((k, tracefs@ + "/trace"@)),
    {
        match probe {
            None => {
                self.tracefs = tracefs.to_owned();
                self.last_err = None;
            },
            Some(k) => {
                let mut trace = tracefs.to_owned();
                trace.append("/trace");
                self.last_err = Some((k, trace));
            },
        }
    }

    pub fn has_err(&self) -> (r: bool)
        ensures
            r == (self.err() is Some),
    {
        self.last_err.is_some()
    }

    pub fn get_err(&self) -> (r: (ErrKind, String))
        requires
            self.err() is Some,
        ensures
            r.0 == self.err().unwrap().0,
            r.1@ == self.err().unwrap().1,
    {
        match &self.last_err {
            Some((k, p)) => (*k, p.clone()),
            None => {
                assert(false);
                (ErrKind::Other, String::new())
            },
        }
    }

    /// Latch a classified accessor failure against the full path on which it
    /// occurred.  A later failure replaces an earlier one; the session keeps
    /// the first failure of a phase by not performing further operations once
    /// the latch is set.
    pub fn path_err(&mut self, kind: ErrKind, path: String)
        ensures
            final(self).root() == old(self).root(),
            final(self).err() == Some((kind, path@)),
    {
        self.last_err = Some((kind, path));
    }

    fn full_path(&self, path: &str) -> (r: String)
        ensures
            r@ == self.spec_path(path@),
    {
        if self.tracefs.as_str().is_empty() {
            path.to_owned()
        } else {
            let mut r = self.tracefs.clone();
            r.append("/");
            r.append(path);
            r
        }
    }

    /// The probe of `path` under the root, for the accessor to perform.
    pub fn test(&self, path: &str) -> (r: FsOp)
        ensures
            r@ == (FsOpV::Test { path: self.spec_path(path@) }),
    {
        FsOp::Test { path: self.full_path(path) }
    }

    /// The truncation of `path` under the root, for the accessor to perform.
    pub fn truncate(&self, path: &str) -> (r: FsOp)
        ensures
            r@ == (FsOpV::Truncate { path: self.spec_path(path@) }),
    {
        FsOp::Truncate { path: self.full_path(path) }
    }

    /// The write of `val` to `path` under the root, for the accessor to
    /// perform.
    pub fn write(&self, path: &str, val: &str) -> (r: FsOp)
        ensures
            r@ == (FsOpV::Write { path: self.spec_path(path@), val: val@ }),
    {
        FsOp::Write { path: self.full_path(path), val: val.to_owned() }
    }

    /// The write of `"1"` or `"0"` to `path` under the root.
    pub fn write_bool(&self, path: &str, val: bool) -> (r: FsOp)
        ensures
            r@ == (FsOpV::Write { path: self.spec_path(path@), val: spec_bool_str(val) }),
    {
        self.write(path, bool_to_str(val))
    }

    /// The write of `val` in decimal to `path` under the root.
    pub fn write_i32(&self, path: &str, val: i32) -> (r: FsOp)
        ensures
            r@ == (FsOpV::Write {
                path: self.spec_path(path@),
                val: crate::text::spec_int_str(val as int),
            }),
    {
        let s = crate::text::i32_to_string(val);
        self.write(path, s.as_str())
    }

    /// The read of `path` under the root, for the accessor to perform.
    pub fn read(&self, path: &str) -> (r: FsOp)
        ensures
            r@ == (FsOpV::Read { path: self.spec_path(path@) }),
    {
        FsOp::Read { path: self.full_path(path) }
    }
}

} // verus!
