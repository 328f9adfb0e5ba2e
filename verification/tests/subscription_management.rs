use veyra::domain::{SubscriptionDocumentFormat, SubscriptionUpdatePolicy};
use veyra::subscription_management::{
    adopt_profile_interval, apply_update_policy_patch, next_generation, revision_for,
    safe_display_name, validate_description, validate_document_revision, validate_id,
    validate_subscription_name, validate_update_policy, validate_user_agent,
    DocumentOperationError, SubscriptionOperationError, UpdatePolicyPatch,
};

#[test]
fn profile_interval_is_adopted_only_when_the_user_left_the_interval_empty() {
    let mut empty = SubscriptionUpdatePolicy {
        allow_auto_update: true,
        interval_minutes: None,
    };
    adopt_profile_interval(&mut empty, Some(1_440));
    assert_eq!(empty.interval_minutes, Some(1_440));

    let mut explicit = SubscriptionUpdatePolicy {
        allow_auto_update: true,
        interval_minutes: Some(2_880),
    };
    adopt_profile_interval(&mut explicit, Some(1_440));
    assert_eq!(explicit.interval_minutes, Some(2_880));

    let mut disabled = SubscriptionUpdatePolicy {
        allow_auto_update: false,
        interval_minutes: None,
    };
    adopt_profile_interval(&mut disabled, Some(1_440));
    assert_eq!(disabled.interval_minutes, None);
}

#[test]
fn update_interval_must_be_at_least_a_day() {
    assert_eq!(
        validate_update_policy(true, Some(1_439)),
        Err(SubscriptionOperationError::InvalidOptions)
    );
    assert_eq!(
        validate_update_policy(true, Some(1_440)),
        Ok(SubscriptionUpdatePolicy {
            allow_auto_update: true,
            interval_minutes: Some(1_440)
        })
    );
    let mut policy = SubscriptionUpdatePolicy::manual();
    assert_eq!(
        apply_update_policy_patch(
            &mut policy,
            UpdatePolicyPatch {
                allow_auto_update: Some(true),
                interval_minutes: Some(Some(60)),
            }
        ),
        Err(SubscriptionOperationError::InvalidOptions)
    );
    assert_eq!(policy, SubscriptionUpdatePolicy::manual());
}

#[test]
fn generation_stops_at_the_largest_safe_integer() {
    assert_eq!(next_generation(1), Ok(2));
    assert_eq!(
        next_generation(9_007_199_254_740_991),
        Err(SubscriptionOperationError::ValidationFailed)
    );
}

#[test]
fn ids_names_and_descriptions_are_checked_and_trimmed() {
    assert_eq!(validate_id("sub-1"), Ok(()));
    assert_eq!(validate_id(" sub"), Err(SubscriptionOperationError::InvalidInput));
    assert_eq!(validate_id(""), Err(SubscriptionOperationError::InvalidInput));
    assert_eq!(
        validate_subscription_name("  Home  ".to_owned()),
        Ok("Home".to_owned())
    );
    assert_eq!(
        validate_subscription_name("   ".to_owned()),
        Err(SubscriptionOperationError::InvalidInput)
    );
    assert_eq!(
        validate_description("bad\u{7}".to_owned()),
        Err(SubscriptionOperationError::InvalidInput)
    );
    assert_eq!(validate_user_agent(None), Ok(None));
    assert_eq!(
        validate_user_agent(Some("Veyra/1.0".to_owned())),
        Ok(Some("Veyra/1.0".to_owned()))
    );
    assert_eq!(
        validate_user_agent(Some("bad\nagent".to_owned())),
        Err(SubscriptionOperationError::InvalidOptions)
    );
    assert_eq!(safe_display_name("  "), "本地订阅");
    assert_eq!(safe_display_name(" Work "), "Work");
}

#[test]
fn document_revision_is_the_labelled_content_digest() {
    assert_eq!(
        revision_for(SubscriptionDocumentFormat::Json, "{}"),
        "c0cd57bded73a45429fa8b34abb3440a186e4732eaf9d23947cbaa57c3bdd154"
    );
    assert_eq!(
        revision_for(SubscriptionDocumentFormat::Yaml, "proxies: []"),
        "081d3d0b046f03dd900fac4a173270f933bf5f156c560e5be4282901b74e6142"
    );
    let revision = revision_for(SubscriptionDocumentFormat::Json, "{}");
    assert_eq!(validate_document_revision(&revision), Ok(()));
    assert_eq!(
        validate_document_revision("ABC"),
        Err(DocumentOperationError::InvalidInput)
    );
}
