use run_that::config::{
    GitSourceConfig, InnerScriptBucketDefinition, NamedBucket, RunThatConfig,
    ScriptBucketDefinition, ScriptBucketDefinitionDes, ScriptSource,
};
use run_that::errors::ConfigError;

fn git_bucket(priority: usize, url: &str, reference: &str) -> ScriptBucketDefinition {
    ScriptBucketDefinition {
        priority,
        source: ScriptSource::Git(GitSourceConfig {
            url: url.to_string(),
            reference: reference.to_string(),
        }),
    }
}

#[test]
fn shorthand_parses_inline_form() {
    let parsed =
        InnerScriptBucketDefinition::from_str("git:git@gitlab.com:dghilardi/demo-1.git#12345")
            .expect("shorthand must parse");
    assert_eq!(parsed.priority, 0);
    let ScriptSource::Git(git) = parsed.source;
    assert_eq!(git.url, "git@gitlab.com:dghilardi/demo-1.git");
    assert_eq!(git.reference, "12345");
}

#[test]
fn shorthand_matches_structured_object() {
    // The same bucket authored both ways yields one definition.
    let inline = InnerScriptBucketDefinition::from_str("git:git@gitlab.com:dghilardi/demo-2.git#54321")
        .expect("shorthand must parse");
    let structured = git_bucket(0, "git@gitlab.com:dghilardi/demo-2.git", "54321");
    assert_eq!(inline.priority, structured.priority);
    let ScriptSource::Git(a) = inline.source;
    let ScriptSource::Git(b) = structured.source;
    assert_eq!(a.url, b.url);
    assert_eq!(a.reference, b.reference);
}

#[test]
fn git_source_splits_at_first_hash() {
    let git = GitSourceConfig::from_str("https://example.com/a/b.git#v1#x").expect("must parse");
    assert_eq!(git.url, "https://example.com/a/b.git");
    assert_eq!(git.reference, "v1#x");
}

#[test]
fn shorthand_without_colon_is_rejected() {
    let err = InnerScriptBucketDefinition::from_str("no separator here").unwrap_err();
    assert_eq!(err, ConfigError::MissingTypeSeparator);
}

#[test]
fn shorthand_with_unknown_source_type_is_rejected() {
    let err = InnerScriptBucketDefinition::from_str("svn:https://example.com#trunk").unwrap_err();
    assert_eq!(err, ConfigError::UnknownSourceType { source_type: "svn".to_string() });
}

#[test]
fn git_shorthand_without_hash_is_rejected() {
    let err = InnerScriptBucketDefinition::from_str("git:https://example.com/repo.git").unwrap_err();
    assert_eq!(err, ConfigError::MissingRefSeparator);
    let err = GitSourceConfig::from_str("https://example.com/repo.git").unwrap_err();
    assert_eq!(err, ConfigError::MissingRefSeparator);
}

#[test]
fn empty_url_or_reference_is_rejected() {
    // The descriptor invariant: url and reference are both non-empty.
    assert_eq!(GitSourceConfig::from_str("#main").unwrap_err(), ConfigError::EmptySourceField);
    assert_eq!(GitSourceConfig::from_str("url#").unwrap_err(), ConfigError::EmptySourceField);
    assert_eq!(GitSourceConfig::from_str("#").unwrap_err(), ConfigError::EmptySourceField);
    assert_eq!(
        InnerScriptBucketDefinition::from_str("git:#main").unwrap_err(),
        ConfigError::EmptySourceField
    );
    assert_eq!(
        InnerScriptBucketDefinition::from_str("git:url#").unwrap_err(),
        ConfigError::EmptySourceField
    );
}

#[test]
fn either_authored_form_normalizes_unchanged() {
    let inner = InnerScriptBucketDefinition {
        priority: 7,
        source: ScriptSource::Git(GitSourceConfig {
            url: "u".to_string(),
            reference: "r".to_string(),
        }),
    };
    let from_str_form = ScriptBucketDefinition::from(ScriptBucketDefinitionDes::FromStr(
        inner.clone(),
    ));
    let from_obj_form = ScriptBucketDefinition::from(ScriptBucketDefinitionDes::FromObj(inner));
    assert_eq!(from_str_form.priority, 7);
    assert_eq!(from_obj_form.priority, 7);
    let ScriptSource::Git(a) = from_str_form.source;
    let ScriptSource::Git(b) = from_obj_form.source;
    assert_eq!(a.url, "u");
    assert_eq!(b.url, "u");
}

#[test]
fn buckets_filters_disabled_and_sorts_by_priority() {
    let config = RunThatConfig {
        buckets: vec![
            NamedBucket { name: "high".to_string(), definition: Some(git_bucket(5, "u5", "r5")) },
            NamedBucket { name: "disabled".to_string(), definition: None },
            NamedBucket { name: "low".to_string(), definition: Some(git_bucket(1, "u1", "r1")) },
            NamedBucket { name: "mid".to_string(), definition: Some(git_bucket(3, "u3", "r3")) },
        ],
    };
    let sorted = config.buckets();
    let priorities: Vec<usize> = sorted.iter().map(|b| b.priority).collect();
    assert_eq!(priorities, vec![1, 3, 5]);
    let urls: Vec<&str> = sorted
        .iter()
        .map(|b| {
            let ScriptSource::Git(g) = &b.source;
            g.url.as_str()
        })
        .collect();
    assert_eq!(urls, vec!["u1", "u3", "u5"]);
}

#[test]
fn buckets_of_empty_config_is_empty() {
    let config = RunThatConfig { buckets: vec![] };
    assert!(config.buckets().is_empty());
}
