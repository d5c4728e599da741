use tracecap::args::{parse_args, ArgError};
use tracecap::catalog::categories;
use tracecap::ftrace::{FsOp, Tracer};
use tracecap::text::{contains_sub, i32_to_string, parse_u32, str_eq, u64_to_string};

fn strings(v: Vec<&str>) -> Vec<String> {
    v.into_iter().map(|s| s.to_string()).collect()
}

#[test]
fn defaults_when_no_arguments() {
    let cats = categories();
    let c = parse_args(&cats, &strings(vec![])).unwrap();
    assert_eq!(c.output, "tmp.trace");
    assert_eq!(c.timeout, 5);
    assert!(!c.explicit);
    assert_eq!(c.enabled_categories, (0..10).collect::<Vec<usize>>());
}

#[test]
fn output_and_timeout_options() {
    let cats = categories();
    let c = parse_args(&cats, &strings(vec!["-o", "x.trace", "-t", "30", "idle"])).unwrap();
    assert_eq!(c.output, "x.trace");
    assert_eq!(c.timeout, 30);
    assert!(c.explicit);
    assert_eq!(c.enabled_categories, vec![2]);
}

#[test]
fn explicit_categories_deduplicated_in_catalog_order() {
    let cats = categories();
    let c = parse_args(&cats, &strings(vec!["kvm", "sched", "kvm"])).unwrap();
    assert!(c.explicit);
    assert_eq!(c.enabled_categories, vec![0, 8]);
}

#[test]
fn later_options_override_earlier_ones() {
    let cats = categories();
    let c = parse_args(&cats, &strings(vec!["-o", "a", "-t", "1", "-o", "b", "-t", "2"])).unwrap();
    assert_eq!(c.output, "b");
    assert_eq!(c.timeout, 2);
}

#[test]
fn help_flag_stops_the_scan() {
    let cats = categories();
    assert!(matches!(parse_args(&cats, &strings(vec!["-h"])), Err(ArgError::Help)));
    assert!(matches!(parse_args(&cats, &strings(vec!["sched", "-h"])), Err(ArgError::Help)));
}

#[test]
fn missing_output_file_name() {
    let cats = categories();
    assert!(matches!(parse_args(&cats, &strings(vec!["-o"])), Err(ArgError::MissingOutput)));
}

#[test]
fn bad_or_missing_timeout() {
    let cats = categories();
    assert!(matches!(parse_args(&cats, &strings(vec!["-t"])), Err(ArgError::BadTimeout)));
    assert!(matches!(parse_args(&cats, &strings(vec!["-t", "abc"])), Err(ArgError::BadTimeout)));
    assert!(matches!(
        parse_args(&cats, &strings(vec!["-t", "4294967296"])),
        Err(ArgError::BadTimeout)
    ));
}

#[test]
fn unknown_category_is_reported_with_its_name() {
    let cats = categories();
    match parse_args(&cats, &strings(vec!["bogus"])) {
        Err(ArgError::UnknownCategory { name }) => assert_eq!(name, "bogus"),
        other => panic!("expected an unknown-category error, got {:?}", other),
    }
}

#[test]
fn parse_u32_exact_values() {
    assert_eq!(parse_u32("0"), Some(0));
    assert_eq!(parse_u32("5"), Some(5));
    assert_eq!(parse_u32("+7"), Some(7));
    assert_eq!(parse_u32("007"), Some(7));
    assert_eq!(parse_u32("4294967295"), Some(u32::MAX));
    assert_eq!(parse_u32("4294967296"), None);
    assert_eq!(parse_u32("99999999999999999999"), None);
    assert_eq!(parse_u32(""), None);
    assert_eq!(parse_u32("+"), None);
    assert_eq!(parse_u32("-1"), None);
    assert_eq!(parse_u32("12x"), None);
    assert_eq!(parse_u32(" 5"), None);
}

#[test]
fn decimal_formatting_exact_values() {
    assert_eq!(i32_to_string(0), "0");
    assert_eq!(i32_to_string(7), "7");
    assert_eq!(i32_to_string(32768), "32768");
    assert_eq!(i32_to_string(-5), "-5");
    assert_eq!(i32_to_string(i32::MIN), "-2147483648");
    assert_eq!(i32_to_string(i32::MAX), "2147483647");
    assert_eq!(u64_to_string(u64::MAX), "18446744073709551615");
}

#[test]
fn tracer_write_i32_formats_the_value() {
    let t = Tracer::new();
    let op = t.write_i32("buffer_size_kb", 32 * 1024);
    assert_eq!(
        op,
        FsOp::Write { path: "buffer_size_kb".to_string(), val: "32768".to_string() }
    );
}

#[test]
fn string_utilities() {
    assert!(str_eq("abc", "abc"));
    assert!(!str_eq("abc", "abd"));
    assert!(!str_eq("abc", "ab"));
    assert!(contains_sub("boot mono global", "mono"));
    assert!(contains_sub("anything", ""));
    assert!(!contains_sub("boot mono global", "[boot]"));
    assert!(!contains_sub("ab", "abc"));
}
