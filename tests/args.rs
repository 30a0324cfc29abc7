use fdns_launcher::args::{
    is_filter_directive, is_help, is_proxy_addr, parse_and_validate_args, sanitize_filters,
    ArgError, Parsed,
};

fn strings(v: &[&str]) -> Vec<String> {
    v.iter().map(|s| s.to_string()).collect()
}

fn launch_parts(args: &[&str]) -> (String, Vec<String>) {
    match parse_and_validate_args(&strings(args)) {
        Ok(Parsed::Launch(inv)) => (inv.proxy_addr().clone(), inv.filters().clone()),
        Ok(Parsed::Help) => panic!("unexpected help"),
        Err(e) => panic!("unexpected error {:?}", e),
    }
}

#[test]
fn proxy_addr_digits_accepted() {
    for d in ["0", "7", "123", "999"] {
        let arg = format!("--proxy-addr=127.70.74.{}", d);
        assert!(is_proxy_addr(&arg));
        let (addr, filters) = launch_parts(&[&arg]);
        assert_eq!(addr, arg);
        assert!(filters.is_empty());
    }
}

#[test]
fn proxy_addr_bad_suffix_rejected() {
    for d in ["1234", "abc", "", "1a", "-1"] {
        let arg = format!("--proxy-addr=127.70.74.{}", d);
        assert!(!is_proxy_addr(&arg));
        assert!(matches!(
            parse_and_validate_args(&strings(&[&arg])),
            Err(ArgError::InvalidFirstArgument)
        ));
    }
}

#[test]
fn proxy_addr_other_prefix_rejected() {
    for arg in ["--proxy-addr=127.0.0.1", "--proxy-addr=127.70.75.1", "127.70.74.1", "--blocklist=a.com"] {
        assert!(!is_proxy_addr(arg));
        assert!(matches!(
            parse_and_validate_args(&strings(&[arg])),
            Err(ArgError::InvalidFirstArgument)
        ));
    }
}

#[test]
fn filters_kept_and_dropped() {
    assert!(is_filter_directive("--whitelist=example.com"));
    assert!(is_filter_directive("--blocklist=sub.example-1_a.com"));
    assert!(!is_filter_directive("--whitelist=bad;rm"));
    assert!(!is_filter_directive("--tracklist=x.com"));
    let (_, filters) = launch_parts(&[
        "--proxy-addr=127.70.74.1",
        "--whitelist=example.com",
        "--whitelist=bad;rm",
        "--blocklist=sub.example-1_a.com",
        "--tracklist=x.com",
    ]);
    assert_eq!(filters, strings(&["--whitelist=example.com", "--blocklist=sub.example-1_a.com"]));
}

#[test]
fn filters_reject_other_characters() {
    for arg in ["--blocklist=a b", "--blocklist=a/b", "--whitelist=é.com", "--whitelist", "--proxy-addr=127.70.74.1"] {
        assert!(!is_filter_directive(arg));
    }
    assert!(is_filter_directive("--blocklist="));
}

#[test]
fn filter_order_preserved() {
    let (addr, filters) = launch_parts(&[
        "--proxy-addr=127.70.74.1",
        "--whitelist=a.com",
        "--blocklist=b.com",
        "--whitelist=c.com",
    ]);
    assert_eq!(addr, "--proxy-addr=127.70.74.1");
    assert_eq!(filters, strings(&["--whitelist=a.com", "--blocklist=b.com", "--whitelist=c.com"]));
}

#[test]
fn sanitizing_twice_changes_nothing() {
    let raw = strings(&["--whitelist=a.com", "x", "--blocklist=b;c", "--blocklist=d.org", "--whitelist=e_f"]);
    let once = sanitize_filters(&raw);
    let twice = sanitize_filters(&once);
    assert_eq!(once, twice);
    let mut again = strings(&["--proxy-addr=127.70.74.9"]);
    again.extend(once.iter().cloned());
    let (_, filters) = launch_parts(&again.iter().map(|s| s.as_str()).collect::<Vec<_>>());
    assert_eq!(filters, once);
}

#[test]
fn help_first_regardless_of_rest() {
    assert!(is_help("--help"));
    assert!(!is_help("--help2"));
    assert!(!is_help("-help"));
    for args in [vec!["--help"], vec!["--help", "--proxy-addr=127.70.74.1"], vec!["--help", "junk;rm"]] {
        assert!(matches!(parse_and_validate_args(&strings(&args)), Ok(Parsed::Help)));
    }
}

#[test]
fn help_not_first_is_invalid() {
    assert!(matches!(
        parse_and_validate_args(&strings(&["--whitelist=a.com", "--help"])),
        Err(ArgError::InvalidFirstArgument)
    ));
}

#[test]
fn no_arguments_is_fatal() {
    assert!(matches!(parse_and_validate_args(&Vec::new()), Err(ArgError::NoArguments)));
}

#[test]
fn command_line_puts_address_first() {
    match parse_and_validate_args(&strings(&["--proxy-addr=127.70.74.12", "--blocklist=x.y", "bad"])) {
        Ok(Parsed::Launch(inv)) => {
            assert_eq!(inv.command_line(), strings(&["--proxy-addr=127.70.74.12", "--blocklist=x.y"]));
        }
        _ => panic!("expected a launch"),
    }
}
