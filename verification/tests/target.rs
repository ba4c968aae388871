use pingstat::target::{
    pick_address, resolve_target, Address, IpFamily, Lookup, ResolutionError, ReverseName, Target,
};

fn v4(text: &str) -> Address {
    Address { family: IpFamily::V4, text: String::from(text) }
}

fn v6(text: &str) -> Address {
    Address { family: IpFamily::V6, text: String::from(text) }
}

#[test]
fn named_target_shows_name_and_address() {
    let target = Target { address: v4("93.184.216.34"), display_name: Some(String::from("example.org")) };
    assert_eq!(target.to_string(), "example.org (93.184.216.34)");
    assert_eq!(target.host_name(), "example.org");
}

#[test]
fn nameless_target_shows_address() {
    let target = Target { address: v6("2001:db8::1"), display_name: None };
    assert_eq!(target.to_string(), "2001:db8::1");
    assert_eq!(target.host_name(), "");
}

#[test]
fn duplicates_are_equal() {
    let target = Target { address: v4("10.0.0.1"), display_name: Some(String::from("gw")) };
    assert_eq!(target.duplicate(), target);
    assert_eq!(target.address.duplicate(), target.address);
    let bare = Target { address: v6("::1"), display_name: None };
    assert_eq!(bare.duplicate(), bare);
}

#[test]
fn literal_takes_the_reverse_name() {
    let lookup = Lookup::Literal {
        address: v4("8.8.8.8"),
        reverse: Some(ReverseName { name: String::from("dns.google"), is_address: false }),
    };
    assert_eq!(
        resolve_target("8.8.8.8", lookup),
        Ok(Target { address: v4("8.8.8.8"), display_name: Some(String::from("dns.google")) })
    );
}

#[test]
fn literal_ignores_an_echoed_address() {
    let lookup = Lookup::Literal {
        address: v4("10.1.2.3"),
        reverse: Some(ReverseName { name: String::from("10.1.2.3"), is_address: true }),
    };
    assert_eq!(
        resolve_target("10.1.2.3", lookup),
        Ok(Target { address: v4("10.1.2.3"), display_name: None })
    );
}

#[test]
fn literal_resolves_without_reverse_name() {
    let lookup = Lookup::Literal { address: v6("::1"), reverse: None };
    assert_eq!(
        resolve_target("::1", lookup),
        Ok(Target { address: v6("::1"), display_name: None })
    );
}

#[test]
fn name_prefers_the_first_ipv4_address() {
    let found = vec![v6("2001:db8::1"), v6("2001:db8::2"), v4("192.0.2.7"), v4("192.0.2.8")];
    assert_eq!(pick_address(&found), Some(2));
    assert_eq!(
        resolve_target("example.org", Lookup::Name { found: Some(found) }),
        Ok(Target { address: v4("192.0.2.7"), display_name: Some(String::from("example.org")) })
    );
}

#[test]
fn name_falls_back_to_the_first_address() {
    let found = vec![v6("2001:db8::1"), v6("2001:db8::2")];
    assert_eq!(pick_address(&found), Some(0));
    assert_eq!(
        resolve_target("six.example", Lookup::Name { found: Some(found) }),
        Ok(Target { address: v6("2001:db8::1"), display_name: Some(String::from("six.example")) })
    );
}

#[test]
fn first_address_wins_among_ipv4() {
    assert_eq!(pick_address(&vec![v4("192.0.2.1"), v4("192.0.2.2")]), Some(0));
    assert_eq!(pick_address(&vec![v4("192.0.2.1")]), Some(0));
    assert_eq!(pick_address(&vec![v6("::1"), v4("127.0.0.1")]), Some(1));
    assert_eq!(pick_address(&vec![]), None);
}

#[test]
fn failed_lookup_is_an_error() {
    let result = resolve_target("no.such.host", Lookup::Name { found: None });
    assert_eq!(result, Err(ResolutionError { input: String::from("no.such.host") }));
    assert_eq!(
        result.unwrap_err().message(),
        "'no.such.host' is not a valid IP or host name"
    );
}

#[test]
fn empty_lookup_is_an_error() {
    let result = resolve_target("void", Lookup::Name { found: Some(vec![]) });
    assert_eq!(result, Err(ResolutionError { input: String::from("void") }));
}
