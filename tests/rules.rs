use commitlint::footers::Footers;
use commitlint::message::Message;
use commitlint::rule::body_empty::BodyEmpty;
use commitlint::rule::body_max_length::BodyMaxLength;
use commitlint::rule::commit_type::Type;
use commitlint::rule::description_empty::DescriptionEmpty;
use commitlint::rule::description_format::DescriptionFormat;
use commitlint::rule::description_max_length::DescriptionMaxLength;
use commitlint::rule::footers_empty::FootersEmpty;
use commitlint::rule::scope::Scope;
use commitlint::rule::scope_empty::ScopeEmpty;
use commitlint::rule::scope_format::ScopeFormat;
use commitlint::rule::scope_max_length::ScopeMaxLength;
use commitlint::rule::subject_empty::SubjectEmpty;
use commitlint::rule::type_empty::TypeEmpty;
use commitlint::rule::type_format::TypeFormat;
use commitlint::rule::type_max_length::TypeMaxLength;
use commitlint::rule::{Level, Rule};

#[test]
fn body_empty_test_non_empty_body() {
    let rule = BodyEmpty::default();
    let message = Message {
        body: Some("Hello world".to_string()),
        description: Some("broadcast $destroy event on scope destruction".to_string()),
        footers: None,
        commit_type: Some("feat".to_string()),
        raw: "feat(scope): broadcast $destroy event on scope destruction\n\nHello world".to_string(),
        scope: Some("scope".to_string()),
        subject: Some("feat(scope): broadcast $destroy event on scope destruction".to_string()),
    };

    assert!(rule.validate(&message).is_none());
}

#[test]
fn body_empty_test_empty_body() {
    let rule = BodyEmpty::default();
    let message = Message {
        body: None,
        description: None,
        footers: None,
        commit_type: Some("feat".to_string()),
        raw: "feat(scope): broadcast $destroy event on scope destruction".to_string(),
        scope: Some("scope".to_string()),
        subject: None,
    };

    let violation = rule.validate(&message);
    assert!(violation.is_some());
    assert_eq!(violation.clone().unwrap().level, Level::Error);
    assert_eq!(violation.unwrap().message, "body is empty".to_string());
}

#[test]
fn test_long_body() {
    let rule = BodyMaxLength {
        length: usize::MAX,
        ..Default::default()
    };
    let message = Message {
        body: Some("Hello world".to_string()),
        description: Some("broadcast $destroy event on scope destruction".to_string()),
        footers: None,
        commit_type: Some("feat".to_string()),
        raw: "feat(scope): broadcast $destroy event on scope destruction\n\nHey!".to_string(),
        scope: Some("scope".to_string()),
        subject: Some("feat(scope): broadcast $destroy event on scope destruction".to_string()),
    };

    assert!(rule.validate(&message).is_none());
}

#[test]
fn test_short_body() {
    let rule = BodyMaxLength {
        length: 10,
        ..Default::default()
    };
    let message = Message {
        body: Some("Hello, I'm a long body".to_string()),
        description: None,
        footers: None,
        commit_type: Some("feat".to_string()),
        raw: "feat(scope): broadcast $destroy event on scope destruction\n\nHello, I'm a long body".to_string(),
        scope: Some("scope".to_string()),
        subject: None,
    };

    let violation = rule.validate(&message);
    assert!(violation.is_some());
    assert_eq!(violation.clone().unwrap().level, Level::Error);
    assert_eq!(violation.unwrap().message, format!("body is longer than {} characters", rule.length));
}

#[test]
fn description_empty_test_non_empty_description() {
    let rule = DescriptionEmpty::default();
    let message = Message {
        body: None,
        description: Some("broadcast $destroy event on scope destruction".to_string()),
        footers: None,
        commit_type: Some("feat".to_string()),
        raw: "feat(scope): broadcast $destroy event on scope destruction".to_string(),
        scope: Some("scope".to_string()),
        subject: None,
    };

    assert!(rule.validate(&message).is_none());
}

#[test]
fn description_empty_test_empty_description() {
    let rule = DescriptionEmpty::default();
    let message = Message {
        body: None,
        description: None,
        footers: None,
        commit_type: Some("feat".to_string()),
        raw: "(scope):".to_string(),
        scope: Some("scope".to_string()),
        subject: None,
    };

    let violation = rule.validate(&message);
    assert!(violation.is_some());
    assert_eq!(violation.clone().unwrap().level, Level::Error);
    assert_eq!(violation.unwrap().message, "description is empty or missing space in the beginning".to_string());
}

#[test]
fn test_blank_description() {
    let rule = DescriptionEmpty::default();
    let message = Message {
        body: None,
        description: Some("".to_string()),
        footers: None,
        commit_type: Some("feat".to_string()),
        raw: "(scope):".to_string(),
        scope: Some("scope".to_string()),
        subject: None,
    };

    let violation = rule.validate(&message);
    assert!(violation.is_some());
    assert_eq!(violation.clone().unwrap().level, Level::Error);
    assert_eq!(violation.unwrap().message, "description is empty or missing space in the beginning".to_string());
}

#[test]
fn description_format_test_invalid_description_format() {
    let rule = DescriptionFormat {
        format: Some("^[a-z].*".to_string()),
        ..Default::default()
    };
    let message = Message {
        body: None,
        description: Some("add new flag".to_string()),
        footers: None,
        commit_type: Some("feat".to_string()),
        raw: "feat(scope): add new flag".to_string(),
        scope: Some("scope".to_string()),
        subject: None,
    };

    assert!(rule.validate(&message).is_none());
}

#[test]
fn description_format_test_valid_description_format() {
    let rule = DescriptionFormat {
        format: Some("^[a-z].*".to_string()),
        ..Default::default()
    };
    let message = Message {
        body: None,
        description: Some("Add new flag".to_string()),
        footers: None,
        commit_type: Some("feat".to_string()),
        raw: "feat(scope): Add new flag".to_string(),
        scope: Some("scope".to_string()),
        subject: None,
    };

    let violation = rule.validate(&message);
    assert!(violation.is_some());
    assert_eq!(violation.clone().unwrap().level, Level::Error);
    assert_eq!(violation.unwrap().message, "description format does not match format: ^[a-z].*".to_string());
}

#[test]
fn description_format_test_invalid_regex() {
    let rule = DescriptionFormat {
        format: Some("(".to_string()),
        ..Default::default()
    };
    let message = Message {
        body: None,
        description: Some("Add regex".to_string()),
        footers: None,
        commit_type: Some("feat".to_string()),
        raw: "feat(scope): Add regex".to_string(),
        scope: Some("scope".to_string()),
        subject: None,
    };

    let violation = rule.validate(&message);
    assert!(violation.is_some());
    assert_eq!(violation.clone().unwrap().level, Level::Error);
    assert!(violation.unwrap().message.contains("regex parse error"));
}

#[test]
fn description_max_length_test_long_description() {
    let rule = DescriptionMaxLength {
        length: usize::MAX,
        ..Default::default()
    };
    let message = Message {
        body: None,
        description: Some("desc".to_string()),
        footers: None,
        commit_type: Some("feat".to_string()),
        raw: "feat(scope): desc".to_string(),
        scope: Some("scope".to_string()),
        subject: Some("feat(scope): desc".to_string()),
    };

    assert!(rule.validate(&message).is_none());
}

#[test]
fn description_max_length_test_short_description() {
    let rule = DescriptionMaxLength {
        length: 10,
        ..Default::default()
    };
    let message = Message {
        body: None,
        description: Some("feat(scope): I'm long description".to_string()),
        footers: None,
        commit_type: Some("feat".to_string()),
        raw: "feat(scope): I'm long description".to_string(),
        scope: Some("scope".to_string()),
        subject: None,
    };

    let violation = rule.validate(&message);
    assert!(violation.is_some());
    assert_eq!(violation.clone().unwrap().level, Level::Error);
    assert_eq!(violation.unwrap().message, format!("description is longer than {} characters", rule.length));
}

#[test]
fn test_non_empty_footer() {
    let rule = FootersEmpty::default();

    let mut f = Footers::new();
    f.insert("Link".to_string(), "hello".to_string());

    let message = Message {
        body: Some("Hello world".to_string()),
        description: Some("broadcast $destroy event on scope destruction".to_string()),
        footers: Some(f),
        commit_type: Some("feat".to_string()),
        raw: "feat(scope): broadcast $destroy event on scope destruction\n\nHello world\n\nLink: hello".to_string(),
        scope: Some("scope".to_string()),
        subject: Some("feat(scope): broadcast $destroy event on scope destruction".to_string()),
    };

    assert!(rule.validate(&message).is_none());
}

#[test]
fn test_empty_footer() {
    let rule = FootersEmpty::default();
    let message = Message {
        body: None,
        description: None,
        footers: None,
        commit_type: Some("feat".to_string()),
        raw: "feat(scope): broadcast $destroy event on scope destruction".to_string(),
        scope: Some("scope".to_string()),
        subject: None,
    };

    let violation = rule.validate(&message);
    assert!(violation.is_some());
    assert_eq!(violation.clone().unwrap().level, Level::Error);
    assert_eq!(violation.unwrap().message, "footers are empty".to_string());
}

#[test]
fn scope_test_empty_scope() {
    {
        let rule = Scope::default();
        let message = Message {
            body: None,
            description: None,
            footers: None,
            commit_type: None,
            raw: "".to_string(),
            scope: Some("".to_string()),
            subject: None,
        };

        assert!(rule.validate(&message).is_none());
    }
    {
        let rule = Scope {
            options: vec!["api".to_string(), "web".to_string()],
            ..Default::default()
        };
        let message = Message {
            body: None,
            description: None,
            footers: None,
            commit_type: None,
            raw: "".to_string(),
            scope: Some("".to_string()),
            subject: None,
        };

        let violation = rule.validate(&message);
        assert!(violation.is_some());
        assert_eq!(violation.clone().unwrap().level, Level::Error);
        assert_eq!(violation.unwrap().message, "scope  is not allowed. Only [\"api\", \"web\"] are allowed");
    }
}

#[test]
fn scope_test_none_scope() {
    {
        let rule = Scope::default();
        let message = Message {
            body: None,
            description: None,
            footers: None,
            commit_type: None,
            raw: "".to_string(),
            scope: None,
            subject: None,
        };

        assert!(rule.validate(&message).is_none());
    }
    {
        let rule = Scope {
            options: vec!["api".to_string(), "web".to_string()],
            ..Default::default()
        };
        let message = Message {
            body: None,
            description: None,
            footers: None,
            commit_type: None,
            raw: "".to_string(),
            scope: None,
            subject: None,
        };

        let violation = rule.validate(&message);
        assert!(violation.is_some());
        assert_eq!(violation.clone().unwrap().level, Level::Error);
        assert_eq!(violation.unwrap().message, "scope  is not allowed. Only [\"api\", \"web\"] are allowed".to_string());
    }
}

#[test]
fn scope_test_scope() {
    let rule = Scope::default();
    let message = Message {
        body: None,
        description: None,
        footers: None,
        commit_type: Some("feat".to_string()),
        raw: "feat(web): broadcast $destroy event on scope destruction".to_string(),
        scope: Some("web".to_string()),
        subject: None,
    };

    let violation = rule.validate(&message);
    assert!(violation.is_some());
    assert_eq!(violation.clone().unwrap().level, Level::Error);
    assert_eq!(violation.unwrap().message, "scopes are not allowed".to_string());
}

#[test]
fn scope_test_valid_scope() {
    let rule = Scope {
        options: vec!["api".to_string(), "web".to_string()],
        ..Default::default()
    };
    let message = Message {
        body: None,
        description: None,
        footers: None,
        commit_type: Some("feat".to_string()),
        raw: "feat(web): broadcast $destroy event on scope destruction".to_string(),
        scope: Some("web".to_string()),
        subject: None,
    };

    assert!(rule.validate(&message).is_none());
}

#[test]
fn scope_test_invalid_scope() {
    let rule = Scope {
        options: vec!["api".to_string(), "web".to_string()],
        ..Default::default()
    };
    let message = Message {
        body: None,
        description: None,
        footers: None,
        commit_type: Some("feat".to_string()),
        raw: "feat(invalid): broadcast $destroy event on scope destruction".to_string(),
        scope: Some("invalid".to_string()),
        subject: None,
    };

    let violation = rule.validate(&message);
    assert!(violation.is_some());
    assert_eq!(violation.clone().unwrap().level, Level::Error);
    assert_eq!(violation.unwrap().message, "scope invalid is not allowed. Only [\"api\", \"web\"] are allowed".to_string());
}

#[test]
fn test_optional_scope_with_non_empty_scope() {
    let rule = Scope {
        options: vec!["api".to_string(), "web".to_string()],
        optional: true,
        ..Default::default()
    };
    let message = Message {
        body: None,
        description: None,
        footers: None,
        commit_type: Some("feat".to_string()),
        raw: "feat(invalid): broadcast $destroy event on scope destruction".to_string(),
        scope: Some("invalid".to_string()),
        subject: None,
    };

    let violation = rule.validate(&message);
    assert!(violation.is_some());
    assert_eq!(violation.clone().unwrap().level, Level::Error);
    assert_eq!(violation.unwrap().message, "scope invalid is not allowed. Only [\"api\", \"web\"] are allowed".to_string());
}

#[test]
fn test_optional_scope_with_empty_scope() {
    let rule = Scope {
        options: vec!["api".to_string(), "web".to_string()],
        optional: true,
        ..Default::default()
    };
    let message = Message {
        body: None,
        description: None,
        footers: None,
        commit_type: Some("feat".to_string()),
        raw: "feat: broadcast $destroy event on scope destruction".to_string(),
        scope: None,
        subject: None,
    };

    assert!(rule.validate(&message).is_none());
}

#[test]
fn scope_empty_test_non_empty_subject() {
    let rule = ScopeEmpty::default();
    let message = Message {
        body: None,
        description: None,
        footers: None,
        commit_type: Some("feat".to_string()),
        raw: "feat(scope): broadcast $destroy event on scope destruction".to_string(),
        scope: Some("scope".to_string()),
        subject: None,
    };

    assert!(rule.validate(&message).is_none());
}

#[test]
fn test_no_subject() {
    let rule = ScopeEmpty::default();
    let message = Message {
        body: None,
        description: None,
        footers: None,
        commit_type: Some("feat".to_string()),
        raw: "feat: broadcast $destroy event on scope destruction".to_string(),
        scope: None,
        subject: None,
    };

    let violation = rule.validate(&message);
    assert!(violation.is_some());
    assert_eq!(violation.clone().unwrap().level, Level::Error);
    assert_eq!(violation.unwrap().message, "scope is empty".to_string());
}

#[test]
fn test_empty_subject() {
    let rule = ScopeEmpty::default();
    let message = Message {
        body: None,
        description: None,
        footers: None,
        commit_type: Some("feat".to_string()),
        raw: "feat(): broadcast $destroy event on scope destruction".to_string(),
        scope: None,
        subject: None,
    };

    let violation = rule.validate(&message);
    assert!(violation.is_some());
    assert_eq!(violation.clone().unwrap().level, Level::Error);
    assert_eq!(violation.unwrap().message, "scope is empty".to_string());
}

#[test]
fn scope_format_test_invalid_description_format() {
    let rule = ScopeFormat {
        format: Some("^[a-z].*".to_string()),
        ..Default::default()
    };
    let message = Message {
        body: None,
        description: Some("Add new flag".to_string()),
        footers: None,
        commit_type: Some("feat".to_string()),
        raw: "feat(scope): Add new flag".to_string(),
        scope: Some("scope".to_string()),
        subject: None,
    };

    assert!(rule.validate(&message).is_none());
}

#[test]
fn scope_format_test_valid_description_format() {
    let rule = ScopeFormat {
        format: Some("^[a-z].*".to_string()),
        ..Default::default()
    };
    let message = Message {
        body: None,
        description: Some("Add new flag".to_string()),
        footers: None,
        commit_type: Some("feat".to_string()),
        raw: "feat(Scope): Add new flag".to_string(),
        scope: Some("Scope".to_string()),
        subject: None,
    };

    let violation = rule.validate(&message);
    assert!(violation.is_some());
    assert_eq!(violation.clone().unwrap().level, Level::Error);
    assert_eq!(violation.unwrap().message, "scope format does not match format: ^[a-z].*".to_string());
}

#[test]
fn scope_format_test_invalid_regex() {
    let rule = ScopeFormat {
        format: Some("(".to_string()),
        ..Default::default()
    };
    let message = Message {
        body: None,
        description: Some("Add regex".to_string()),
        footers: None,
        commit_type: Some("feat".to_string()),
        raw: "feat(scope): Add regex".to_string(),
        scope: Some("scope".to_string()),
        subject: None,
    };

    let violation = rule.validate(&message);
    assert!(violation.is_some());
    assert_eq!(violation.clone().unwrap().level, Level::Error);
    assert!(violation.unwrap().message.contains("regex parse error"));
}

#[test]
fn test_long_scope() {
    let rule = ScopeMaxLength {
        length: usize::MAX,
        ..Default::default()
    };
    let message = Message {
        body: None,
        description: Some("desc".to_string()),
        footers: None,
        commit_type: Some("feat".to_string()),
        raw: "feat(scope): desc".to_string(),
        scope: Some("scope".to_string()),
        subject: Some("feat(scope): desc".to_string()),
    };

    assert!(rule.validate(&message).is_none());
}

#[test]
fn test_short_scope() {
    let rule = ScopeMaxLength {
        length: 3,
        ..Default::default()
    };
    let message = Message {
        body: None,
        description: Some("feat(scope): I'm long description".to_string()),
        footers: None,
        commit_type: Some("feat".to_string()),
        raw: "feat(scope): I'm long description".to_string(),
        scope: Some("scope".to_string()),
        subject: None,
    };

    let violation = rule.validate(&message);
    assert!(violation.is_some());
    assert_eq!(violation.clone().unwrap().level, Level::Error);
    assert_eq!(violation.unwrap().message, format!("scope is longer than {} characters", rule.length));
}

#[test]
fn subject_empty_test_non_empty_subject() {
    let rule = SubjectEmpty::default();
    let message = Message {
        body: None,
        description: Some("broadcast $destroy event on scope destruction".to_string()),
        footers: None,
        commit_type: Some("feat".to_string()),
        raw: "feat(scope): broadcast $destroy event on scope destruction\n\nHello world".to_string(),
        scope: Some("scope".to_string()),
        subject: Some("feat(scope): broadcast $destroy event on scope destruction".to_string()),
    };

    assert!(rule.validate(&message).is_none());
}

#[test]
fn subject_empty_test_empty_description() {
    let rule = SubjectEmpty::default();
    let message = Message {
        body: None,
        description: None,
        footers: None,
        commit_type: Some("feat".to_string()),
        raw: "\n\nHello world".to_string(),
        scope: Some("scope".to_string()),
        subject: None,
    };

    let violation = rule.validate(&message);
    assert!(violation.is_some());
    assert_eq!(violation.clone().unwrap().level, Level::Error);
    assert_eq!(violation.unwrap().message, "subject is empty".to_string());
}

#[test]
fn type_test_empty_type() {
    {
        let rule = Type::default();
        let message = Message {
            body: None,
            description: None,
            footers: None,
            commit_type: None,
            raw: "".to_string(),
            scope: Some("".to_string()),
            subject: None,
        };

        assert!(rule.validate(&message).is_none());
    }
    {
        let rule = Type {
            options: vec!["feat".to_string(), "chore".to_string()],
            ..Default::default()
        };
        let message = Message {
            body: None,
            description: None,
            footers: None,
            commit_type: None,
            raw: "".to_string(),
            scope: Some("".to_string()),
            subject: None,
        };

        let violation = rule.validate(&message);
        assert!(violation.is_some());
        assert_eq!(violation.clone().unwrap().level, Level::Error);
        assert_eq!(violation.unwrap().message, "type  is not allowed. Only [\"feat\", \"chore\"] are allowed");
    }
}

#[test]
fn type_test_none_type() {
    {
        let rule = Type::default();
        let message = Message {
            body: None,
            description: None,
            footers: None,
            commit_type: None,
            raw: "".to_string(),
            scope: None,
            subject: None,
        };

        assert!(rule.validate(&message).is_none());
    }
    {
        let rule = Type {
            options: vec!["feat".to_string(), "chore".to_string()],
            ..Default::default()
        };
        let message = Message {
            body: None,
            description: None,
            footers: None,
            commit_type: None,
            raw: "".to_string(),
            scope: None,
            subject: None,
        };

        let violation = rule.validate(&message);
        assert!(violation.is_some());
        assert_eq!(violation.clone().unwrap().level, Level::Error);
        assert_eq!(violation.unwrap().message, "type  is not allowed. Only [\"feat\", \"chore\"] are allowed".to_string());
    }
}

#[test]
fn test_type() {
    let rule = Type::default();
    let message = Message {
        body: None,
        description: None,
        footers: None,
        commit_type: Some("feat".to_string()),
        raw: "feat(web): broadcast $destroy event on scope destruction".to_string(),
        scope: Some("web".to_string()),
        subject: None,
    };

    let violation = rule.validate(&message);
    assert!(violation.is_some());
    assert_eq!(violation.clone().unwrap().level, Level::Error);
    assert_eq!(violation.unwrap().message, "types are not allowed".to_string());
}

#[test]
fn type_test_valid_type() {
    {
        let rule = Type {
            options: vec!["feat".to_string(), "chore".to_string()],
            ..Default::default()
        };
        let message = Message {
            body: None,
            description: None,
            footers: None,
            commit_type: Some("feat".to_string()),
            raw: "feat(web): broadcast $destroy event on scope destruction".to_string(),
            scope: Some("web".to_string()),
            subject: None,
        };

        assert!(rule.validate(&message).is_none());
    }
    {
        let rule = Type {
            options: vec!["doc".to_string(), "feat".to_string()],
            ..Default::default()
        };
        let message = Message {
            body: None,
            description: None,
            footers: None,
            commit_type: Some("feat".to_string()),
            raw: "feat(scope): broadcast $destroy event on scope destruction".to_string(),
            scope: None,
            subject: None,
        };

        assert!(rule.validate(&message).is_none());
    }
}

#[test]
fn type_test_invalid_type() {
    {
        let rule = Type {
            options: vec!["feat".to_string(), "chore".to_string()],
            ..Default::default()
        };
        let message = Message {
            body: None,
            description: None,
            footers: None,
            commit_type: Some("invalid".to_string()),
            raw: "invalid(web): broadcast $destroy event on scope destruction".to_string(),
            scope: Some("web".to_string()),
            subject: None,
        };

        let violation = rule.validate(&message);
        assert!(violation.is_some());
        assert_eq!(violation.clone().unwrap().level, Level::Error);
        assert_eq!(violation.unwrap().message, "type invalid is not allowed. Only [\"feat\", \"chore\"] are allowed".to_string());
    }
    {
        let rule = Type {
            options: vec!["doc".to_string(), "feat".to_string()],
            ..Default::default()
        };
        let message = Message {
            body: None,
            description: None,
            footers: None,
            commit_type: Some("invalid".to_string()),
            raw: "invalid(scope): broadcast $destroy event on scope destruction".to_string(),
            scope: None,
            subject: None,
        };

        let violation = rule.validate(&message);
        assert!(violation.is_some());
        assert_eq!(violation.clone().unwrap().level, Level::Error);
        assert_eq!(violation.unwrap().message, "type invalid is not allowed. Only [\"doc\", \"feat\"] are allowed".to_string());
    }
}

#[test]
fn type_empty_test_non_empty_type() {
    let rule = TypeEmpty::default();
    let message = Message {
        body: None,
        description: None,
        footers: None,
        commit_type: Some("feat".to_string()),
        raw: "feat(scope): broadcast $destroy event on scope destruction".to_string(),
        scope: None,
        subject: None,
    };

    assert!(rule.validate(&message).is_none());
}

#[test]
fn type_empty_test_empty_type() {
    let rule = TypeEmpty::default();
    let message = Message {
        body: None,
        description: None,
        footers: None,
        commit_type: None,
        raw: "(scope): broadcast $destroy event on scope destruction".to_string(),
        scope: None,
        subject: None,
    };

    let violation = rule.validate(&message);
    assert!(violation.is_some());
    assert_eq!(violation.clone().unwrap().level, Level::Error);
    assert_eq!(violation.unwrap().message, "type is empty".to_string());
}

#[test]
fn type_format_test_invalid_description_format() {
    let rule = TypeFormat {
        format: Some("^[a-z].*".to_string()),
        ..Default::default()
    };
    let message = Message {
        body: None,
        description: Some("Add new flag".to_string()),
        footers: None,
        commit_type: Some("feat".to_string()),
        raw: "feat(scope): Add new flag".to_string(),
        scope: Some("scope".to_string()),
        subject: None,
    };

    assert!(rule.validate(&message).is_none());
}

#[test]
fn type_format_test_valid_description_format() {
    let rule = TypeFormat {
        format: Some("^[a-z].*".to_string()),
        ..Default::default()
    };
    let message = Message {
        body: None,
        description: Some("Add new flag".to_string()),
        footers: None,
        commit_type: Some("Feat".to_string()),
        raw: "Feat(scope): Add new flag".to_string(),
        scope: Some("Scope".to_string()),
        subject: None,
    };

    let violation = rule.validate(&message);
    assert!(violation.is_some());
    assert_eq!(violation.clone().unwrap().level, Level::Error);
    assert_eq!(violation.unwrap().message, "type format does not match format: ^[a-z].*".to_string());
}

#[test]
fn type_format_test_invalid_regex() {
    let rule = TypeFormat {
        format: Some("(".to_string()),
        ..Default::default()
    };
    let message = Message {
        body: None,
        description: Some("Invalid regex".to_string()),
        footers: None,
        commit_type: Some("feat".to_string()),
        raw: "feat(scope): Invalid regex".to_string(),
        scope: Some("scope".to_string()),
        subject: None,
    };

    let violation = rule.validate(&message);
    assert!(violation.is_some());
    assert_eq!(violation.clone().unwrap().level, Level::Error);
    assert!(violation.unwrap().message.contains("regex parse error"));
}

#[test]
fn test_long_type() {
    let rule = TypeMaxLength {
        length: usize::MAX,
        ..Default::default()
    };
    let message = Message {
        body: None,
        description: Some("desc".to_string()),
        footers: None,
        commit_type: Some("feat".to_string()),
        raw: "feat(scope): desc".to_string(),
        scope: Some("scope".to_string()),
        subject: Some("feat(scope): desc".to_string()),
    };

    assert!(rule.validate(&message).is_none());
}

#[test]
fn test_short_type() {
    let rule = TypeMaxLength {
        length: 3,
        ..Default::default()
    };
    let message = Message {
        body: None,
        description: Some("feat(scope): I'm long description".to_string()),
        footers: None,
        commit_type: Some("feat".to_string()),
        raw: "feat(scope): I'm long description".to_string(),
        scope: Some("scope".to_string()),
        subject: None,
    };

    let violation = rule.validate(&message);
    assert!(violation.is_some());
    assert_eq!(violation.clone().unwrap().level, Level::Error);
    assert_eq!(violation.unwrap().message, format!("type is longer than {} characters", rule.length));
}
