use wpressforge::panel::db::destinations::{
    decrypt_credentials, pick, restic_target, seal_form, Destination, DestinationForm, Pick,
};
use wpressforge::common::error::Error;
use wpressforge::panel::jobs::{look_up, target_found, TargetLookup};
use wpressforge::panel::secrets::SecretBox;

fn destination(endpoint: Option<&str>, region: Option<&str>, prefix: &str) -> Destination {
    let secrets = SecretBox::from_key([3u8; 32]);
    Destination {
        id: 1,
        name: "test".into(),
        provider: "minio".into(),
        bucket: "wp-backups".into(),
        region: region.map(str::to_owned),
        endpoint: endpoint.map(str::to_owned),
        access_key_id: Some("AKIA".into()),
        secret_sealed: Some(secrets.seal("s3cret").expect("seal")),
        restic_password_sealed: Some(secrets.seal("repo-pass").expect("seal")),
        repo_prefix: prefix.into(),
        created_at: "2026-01-01T00:00:00Z".into(),
    }
}

#[test]
fn builds_repo_url_from_endpoint_and_prefix() {
    let secrets = SecretBox::from_key([3u8; 32]);
    let target = restic_target(
        &destination(Some("http://127.0.0.1:9000"), None, "wp"),
        &secrets,
    )
    .expect("target");

    assert_eq!(target.repo, "s3:127.0.0.1:9000/wp-backups/wp");
    assert_eq!(target.password, "repo-pass");
    assert!(target
        .env
        .iter()
        .any(|(k, v)| k == "AWS_ACCESS_KEY_ID" && v == "AKIA"));
    assert!(target
        .env
        .iter()
        .any(|(k, v)| k == "AWS_SECRET_ACCESS_KEY" && v == "s3cret"));
}

#[test]
fn falls_back_to_regional_aws_endpoint() {
    let secrets = SecretBox::from_key([3u8; 32]);
    let target =
        restic_target(&destination(None, Some("eu-central-1"), ""), &secrets).expect("target");

    assert_eq!(target.repo, "s3:s3.eu-central-1.amazonaws.com/wp-backups");
    assert!(target
        .env
        .iter()
        .any(|(k, v)| k == "AWS_DEFAULT_REGION" && v == "eu-central-1"));
}

#[test]
fn refuses_a_destination_without_a_repository_password() {
    let secrets = SecretBox::from_key([3u8; 32]);
    let mut dest = destination(None, None, "wp");
    dest.restic_password_sealed = None;

    assert!(restic_target(&dest, &secrets).is_err());
}

#[test]
fn what_a_form_seals_is_read_back() {
    let secrets = SecretBox::from_key([5u8; 32]);
    let form = DestinationForm {
        name: "backups".into(),
        provider: "s3".into(),
        bucket: "b".into(),
        region: String::new(),
        endpoint: String::new(),
        access_key_id: "AKIA".into(),
        secret: "s3cret".into(),
        restic_password: "repo-pass".into(),
    };
    let sealed = seal_form(form, &secrets).expect("sealed");
    assert_eq!(sealed.region, None);
    assert_ne!(sealed.secret_sealed.as_deref(), Some("s3cret"));
    let mut dest = destination(None, None, "wp");
    dest.access_key_id = sealed.access_key_id;
    dest.secret_sealed = sealed.secret_sealed;
    dest.restic_password_sealed = sealed.restic_password_sealed;
    let c = decrypt_credentials(&dest, &secrets).expect("credentials");
    assert_eq!(c.access_key_id, "AKIA");
    assert_eq!(c.secret, "s3cret");
    assert_eq!(c.restic_password, "repo-pass");
}

#[test]
fn another_key_reads_no_credentials() {
    let dest = destination(None, None, "wp");
    assert!(decrypt_credentials(&dest, &SecretBox::from_key([4u8; 32])).is_err());
}

#[test]
fn a_site_uses_its_own_destination_or_the_only_one() {
    assert_eq!(pick(Some(4), 3), Pick::ById(4));
    assert_eq!(pick(None, 1), Pick::Only);
    assert_eq!(pick(None, 2), Pick::Nothing);
    assert_eq!(pick(None, 0), Pick::Nothing);
}

#[test]
fn jobs_use_the_destination_that_is_there() {
    let secrets = SecretBox::from_key([3u8; 32]);
    let mut dest = destination(None, None, "wp");
    match look_up(Some(&dest), &secrets) {
        TargetLookup::Found(target) => {
            assert_eq!(target.repo, "s3:s3.amazonaws.com/wp-backups/wp");
            assert_eq!(target.password, "repo-pass");
        }
        _ => panic!("not found"),
    }
    assert!(matches!(look_up(None, &secrets), TargetLookup::Missing));
    let other = SecretBox::from_key([4u8; 32]);
    assert!(matches!(look_up(Some(&dest), &other), TargetLookup::Missing));
    let refused = target_found(&dest, Err(Error::Invalid("no".into())));
    assert!(matches!(refused, TargetLookup::Missing));
    // The agent tells that a repository needs a password.
    dest.restic_password_sealed = None;
    match look_up(Some(&dest), &secrets) {
        TargetLookup::Found(target) => assert_eq!(target.password, ""),
        _ => panic!("not found"),
    }
}
