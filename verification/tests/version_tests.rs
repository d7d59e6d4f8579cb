use druid_garden_os::version::{Precedence, Version};

fn parsed(text: &str) -> Version {
    match Version::parse(text) {
        Some(version) => version,
        None => panic!("{} is a version", text),
    }
}

#[test]
fn parse_reads_the_three_numbers() {
    let version = parsed("1.22.333");
    assert_eq!(version.major, 1);
    assert_eq!(version.minor, 22);
    assert_eq!(version.patch, 333);
    assert_eq!(version.pre, "");
    assert_eq!(version.build, "");
}

#[test]
fn parse_reads_prerelease_and_build() {
    let version = parsed("1.2.3-alpha.1+build.5");
    assert_eq!(version.major, 1);
    assert_eq!(version.minor, 2);
    assert_eq!(version.patch, 3);
    assert_eq!(version.pre, "alpha.1");
    assert_eq!(version.build, "build.5");
}

#[test]
fn parse_refuses_what_is_no_version() {
    assert!(Version::parse("").is_none());
    assert!(Version::parse("1.2").is_none());
    assert!(Version::parse("1.q.r").is_none());
    assert!(Version::parse("01.2.3").is_none());
    assert!(Version::parse("1.2.3 ").is_none());
    assert!(Version::parse("v1.2.3").is_none());
    assert!(Version::parse("1.2.3-").is_none());
}

#[test]
fn compare_goes_by_the_numbers_first() {
    assert_eq!(parsed("1.2.0").compare(&parsed("1.3.0")), Some(Precedence::Lower));
    assert_eq!(parsed("1.3.0").compare(&parsed("1.3.0")), Some(Precedence::Same));
    assert_eq!(parsed("2.0.0").compare(&parsed("1.99.99")), Some(Precedence::Higher));
    assert_eq!(parsed("1.2.10").compare(&parsed("1.2.9")), Some(Precedence::Higher));
    assert_eq!(parsed("0.9.0").compare(&parsed("0.10.0")), Some(Precedence::Lower));
}

#[test]
fn a_release_stands_above_its_prereleases() {
    assert_eq!(parsed("1.0.0").compare(&parsed("1.0.0-rc.1")), Some(Precedence::Higher));
    assert_eq!(parsed("1.0.0-rc.1").compare(&parsed("1.0.0")), Some(Precedence::Lower));
}

#[test]
fn prereleases_are_ordered_by_semver() {
    let chain = [
        "1.0.0-alpha",
        "1.0.0-alpha.1",
        "1.0.0-alpha.beta",
        "1.0.0-beta",
        "1.0.0-beta.2",
        "1.0.0-beta.11",
        "1.0.0-rc.1",
    ];
    for i in 0..chain.len() - 1 {
        assert_eq!(
            parsed(chain[i]).compare(&parsed(chain[i + 1])),
            Some(Precedence::Lower)
        );
        assert_eq!(
            parsed(chain[i + 1]).compare(&parsed(chain[i])),
            Some(Precedence::Higher)
        );
    }
    assert_eq!(
        parsed("1.0.0-beta.2").compare(&parsed("1.0.0-beta.2")),
        Some(Precedence::Same)
    );
}

#[test]
fn build_parts_are_ordered_by_semver() {
    assert_eq!(parsed("1.0.0+1").compare(&parsed("1.0.0+2")), Some(Precedence::Lower));
    assert_eq!(parsed("1.0.0+10").compare(&parsed("1.0.0+9")), Some(Precedence::Higher));
    assert_eq!(parsed("1.0.0+a").compare(&parsed("1.0.0+a")), Some(Precedence::Same));
    assert_eq!(parsed("1.0.0").compare(&parsed("1.0.0+a")), Some(Precedence::Lower));
}

#[test]
fn compare_agrees_with_semver() {
    let texts = [
        "0.0.1", "1.0.0", "1.0.0-alpha", "1.0.0-alpha.1", "1.0.0-1", "1.0.0-x", "1.0.0+b",
        "1.0.0-alpha+b", "1.2.3", "10.0.0",
    ];
    for a in texts {
        for b in texts {
            let expected = semver::Version::parse(a).unwrap().cmp(&semver::Version::parse(b).unwrap());
            let expected = match expected {
                std::cmp::Ordering::Less => Precedence::Lower,
                std::cmp::Ordering::Equal => Precedence::Same,
                std::cmp::Ordering::Greater => Precedence::Higher,
            };
            assert_eq!(parsed(a).compare(&parsed(b)), Some(expected));
        }
    }
}

#[test]
fn compare_has_no_answer_for_parts_that_are_no_identifiers() {
    let mut left = Version::new(1, 0, 0);
    left.pre = String::from("not valid!");
    let mut right = Version::new(1, 0, 0);
    right.pre = String::from("alpha");
    assert_eq!(left.compare(&right), None);
    assert_eq!(left.compare(&Version::new(1, 0, 1)), Some(Precedence::Lower));
}

#[test]
fn to_string_writes_the_version_out() {
    assert_eq!(Version::new(1, 2, 3).to_string(), "1.2.3");
    assert_eq!(Version::new(0, 0, 0).to_string(), "0.0.0");
    assert_eq!(
        Version::new(u64::MAX, 10, 100).to_string(),
        "18446744073709551615.10.100"
    );
    assert_eq!(parsed("1.2.3-alpha.1").to_string(), "1.2.3-alpha.1");
    assert_eq!(parsed("1.2.3+b5").to_string(), "1.2.3+b5");
    assert_eq!(parsed("1.2.3-rc.1+b5").to_string(), "1.2.3-rc.1+b5");
}

#[test]
fn to_string_agrees_with_semver() {
    for text in ["0.0.0", "1.2.3", "1.0.0-alpha.1", "3.4.5+x.7", "9.8.7-a.b+c.d"] {
        assert_eq!(parsed(text).to_string(), semver::Version::parse(text).unwrap().to_string());
    }
}

#[test]
fn same_compares_all_five_parts() {
    assert!(parsed("1.2.3").same(&Version::new(1, 2, 3)));
    assert!(!parsed("1.2.3").same(&parsed("1.2.4")));
    assert!(!parsed("1.2.3-a").same(&parsed("1.2.3")));
    assert!(!parsed("1.2.3+a").same(&parsed("1.2.3+b")));
    assert!(parsed("1.2.3-a+b").same(&parsed("1.2.3-a+b")));
}

#[test]
fn duplicate_keeps_every_part() {
    let version = parsed("4.5.6-pre+build");
    assert!(version.duplicate().same(&version));
}
