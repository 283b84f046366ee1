use gatekeeper::error::{Error, Path};
use gatekeeper::validate::{Unvalidated, Valid, Validate};
use gatekeeper::Report;

#[derive(Clone, Debug, PartialEq)]
struct User {
    pub username: String,
    pub age: u8,
}

impl Validate for User {
    type Context = ();

    fn validate_into<F: Fn() -> Path>(&self, _: &Self::Context, parent: &F, report: &mut Report) {
        if self.username.trim().is_empty() {
            let path = parent().join("username");
            report.append(path, Error::new("username must not be empty"));
        }

        if self.age < 18 {
            let path = parent().join("age");
            report.append(path, Error::new("age must be ≥ 18"));
        }
    }
}

/// The longest name that the context allows.
struct Limits {
    max_len: usize,
}

#[derive(Clone, Copy, Debug, PartialEq)]
struct Name<'a>(&'a str);

impl<'a> Validate for Name<'a> {
    type Context = Limits;

    fn validate_into<F: Fn() -> Path>(&self, ctx: &Limits, parent: &F, report: &mut Report) {
        if self.0.len() > ctx.max_len {
            report.append(parent(), Error::new("name is too long"));
        }
    }
}

struct Team {
    lead: User,
    members: Vec<User>,
}

impl Validate for Team {
    type Context = ();

    fn validate_into<F: Fn() -> Path>(&self, ctx: &(), parent: &F, report: &mut Report) {
        let lead = || parent().join("lead");
        self.lead.validate_into(ctx, &lead, report);
        if self.members.is_empty() {
            report.append(parent().join("members"), Error::new("a team needs members"));
        }
        for (i, member) in self.members.iter().enumerate() {
            let at = || parent().join("members").join(i);
            member.validate_into(ctx, &at, report);
        }
    }
}

/// Four rules, each of which fails on its own.
struct Form {
    fields: [i32; 4],
}

impl Validate for Form {
    type Context = ();

    fn validate_into<F: Fn() -> Path>(&self, _: &(), parent: &F, report: &mut Report) {
        for (i, field) in self.fields.iter().enumerate() {
            if *field < 0 {
                report.append(parent().join(i), Error::new("must not be negative"));
            }
        }
    }
}

fn lines(report: &Report) -> Vec<String> {
    report
        .iter()
        .into_iter()
        .map(|pair| format!("{}|{}", pair.0.to_string(), pair.1.message()))
        .collect()
}

fn bob() -> User {
    User {
        username: "bob".into(),
        age: 22,
    }
}

fn nobody() -> User {
    User {
        username: "".into(),
        age: 10,
    }
}

#[test]
fn valid_user_passes() {
    let user = User {
        username: "bob".into(),
        age: 22,
    };

    let result = user.validate();
    assert!(result.is_ok(), "Expected validation to pass");
}

#[test]
fn invalid_user_reports_every_violation_in_order() {
    match Unvalidated::new(nobody()).validate() {
        Ok(_) => panic!("expected validation to fail"),
        Err(report) => {
            assert_eq!(
                report.to_string(),
                "username: username must not be empty\nage: age must be ≥ 18\n"
            );
            assert_eq!(report.iter().len(), 2);
            assert!(!report.is_empty());
        }
    }
}

#[test]
fn valid_user_keeps_its_value() {
    match Unvalidated::new(bob()).validate() {
        Ok(valid) => {
            assert_eq!(valid.username, "bob");
            assert_eq!(*valid, bob());
            let inner = valid.into_inner();
            assert_eq!(inner, bob());
        }
        Err(_) => panic!("expected validation to pass"),
    }
}

#[test]
fn a_single_failing_rule_is_reported_alone() {
    let young = User {
        username: "al".into(),
        age: 17,
    };
    match young.validate() {
        Ok(()) => panic!("expected validation to fail"),
        Err(report) => assert_eq!(lines(&report), vec!["age|age must be ≥ 18"]),
    }
    let blank = User {
        username: "   ".into(),
        age: 18,
    };
    match blank.validate() {
        Ok(()) => panic!("expected validation to fail"),
        Err(report) => assert_eq!(lines(&report), vec!["username|username must not be empty"]),
    }
}

#[test]
fn success_goes_with_an_empty_report() {
    let mut report = Report::new();
    bob().validate_into(&(), &Path::empty, &mut report);
    assert!(report.is_empty());
    assert!(bob().validate_with(&()).is_ok());

    let mut report = Report::new();
    nobody().validate_into(&(), &Path::empty, &mut report);
    assert!(!report.is_empty());
    assert!(nobody().validate_with(&()).is_err());
}

#[test]
fn validate_into_keeps_what_the_report_held() {
    let mut report = Report::new();
    report.append(Path::new("earlier"), Error::new("already there"));
    nobody().validate_into(&(), &|| Path::new("user"), &mut report);
    assert_eq!(
        lines(&report),
        vec![
            "earlier|already there",
            "user.username|username must not be empty",
            "user.age|age must be ≥ 18",
        ]
    );
}

#[test]
fn validating_twice_gives_the_same_report() {
    let first = Unvalidated::new(nobody()).validate();
    let second = Unvalidated::new(nobody()).validate();
    match (first, second) {
        (Err(a), Err(b)) => {
            assert_eq!(lines(&a), lines(&b));
            assert_eq!(a.to_string(), b.to_string());
        }
        _ => panic!("expected both validations to fail"),
    }
    let first = Unvalidated::new(bob()).validate();
    let second = Unvalidated::new(bob()).validate();
    match (first, second) {
        (Ok(a), Ok(b)) => assert_eq!(*a, *b),
        _ => panic!("expected both validations to pass"),
    }
}

#[test]
fn every_failing_rule_is_reported() {
    let form = Form {
        fields: [-1, -2, -3, -4],
    };
    match form.validate() {
        Ok(()) => panic!("expected validation to fail"),
        Err(report) => {
            assert_eq!(report.iter().len(), 4);
            assert_eq!(
                report.to_string(),
                "[0]: must not be negative\n[1]: must not be negative\n\
                 [2]: must not be negative\n[3]: must not be negative\n"
            );
        }
    }
    let form = Form {
        fields: [1, -2, 3, -4],
    };
    match form.validate() {
        Ok(()) => panic!("expected validation to fail"),
        Err(report) => assert_eq!(
            lines(&report),
            vec!["[1]|must not be negative", "[3]|must not be negative"]
        ),
    }
}

#[test]
fn context_is_handed_to_the_rules() {
    let name = Name("margaret");
    assert!(name.validate_with(&Limits { max_len: 8 }).is_ok());
    match name.validate_with(&Limits { max_len: 7 }) {
        Ok(()) => panic!("expected validation to fail"),
        Err(report) => assert_eq!(report.to_string(), "name is too long\n"),
    }
    match Unvalidated::new(name).validate_with(&Limits { max_len: 100 }) {
        Ok(valid) => assert_eq!(valid.into_inner(), Name("margaret")),
        Err(_) => panic!("expected validation to pass"),
    }
    assert!(Unvalidated::new(name).validate_with(&Limits { max_len: 0 }).is_err());
}

#[test]
fn nested_values_are_reported_below_their_parent() {
    let team = Team {
        lead: nobody(),
        members: vec![
            bob(),
            User {
                username: "eve".into(),
                age: 3,
            },
        ],
    };
    match team.validate() {
        Ok(()) => panic!("expected validation to fail"),
        Err(report) => assert_eq!(
            report.to_string(),
            "lead.username: username must not be empty\n\
             lead.age: age must be ≥ 18\n\
             members[1].age: age must be ≥ 18\n"
        ),
    }
}

#[test]
fn a_failing_child_does_not_stop_the_parent() {
    let team = Team {
        lead: nobody(),
        members: Vec::new(),
    };
    match team.validate() {
        Ok(()) => panic!("expected validation to fail"),
        Err(report) => assert_eq!(
            lines(&report),
            vec![
                "lead.username|username must not be empty",
                "lead.age|age must be ≥ 18",
                "members|a team needs members",
            ]
        ),
    }
}

#[test]
fn validating_through_a_reference_is_the_same() {
    let user = nobody();
    let direct = match user.validate() {
        Ok(()) => panic!("expected validation to fail"),
        Err(report) => lines(&report),
    };
    let shared: &User = &user;
    let by_ref = match Validate::validate(&shared) {
        Ok(()) => panic!("expected validation to fail"),
        Err(report) => lines(&report),
    };
    assert_eq!(by_ref, direct);

    let mut owned = nobody();
    let exclusive: &mut User = &mut owned;
    let by_mut = match Validate::validate(&exclusive) {
        Ok(()) => panic!("expected validation to fail"),
        Err(report) => lines(&report),
    };
    assert_eq!(by_mut, direct);

    let good = bob();
    assert!(Validate::validate(&&good).is_ok());
    match Unvalidated::new(&good).validate() {
        Ok(valid) => assert_eq!(**valid, bob()),
        Err(_) => panic!("expected validation to pass"),
    }
}

#[test]
fn unvalidated_from_a_value() {
    let wrapped: Unvalidated<User> = bob().into();
    assert!(wrapped.validate().is_ok());
    let wrapped = Unvalidated::from(nobody());
    assert!(wrapped.validate().is_err());
}

#[derive(Default)]
struct Anything;

impl Validate for Anything {
    type Context = ();

    fn validate_into<F: Fn() -> Path>(&self, _: &(), _: &F, _: &mut Report) {}
}

#[test]
fn unvalidated_default_wraps_the_default_value() {
    let wrapped: Unvalidated<Anything> = Unvalidated::default();
    assert!(wrapped.validate().is_ok());
}

#[test]
fn valid_of_a_copy_type_can_be_copied() {
    let valid: Valid<Name> = match Unvalidated::new(Name("al")).validate_with(&Limits { max_len: 2 }) {
        Ok(valid) => valid,
        Err(_) => panic!("expected validation to pass"),
    };
    let copy = valid;
    let clone = valid.clone();
    assert_eq!(copy.into_inner(), Name("al"));
    assert_eq!(clone.into_inner(), Name("al"));
    assert_eq!(format!("{:?}", valid), "Valid(Name(\"al\"))");
}
