use llama_gateway::auth::authorize;

#[test]
fn matching_credential_passes() {
    let secret = String::from("s3cr3t");
    let header = String::from("s3cr3t");
    assert!(authorize(&secret, Some(&header)));
}

#[test]
fn mismatching_credential_fails() {
    let secret = String::from("s3cr3t");
    let header = String::from("wrong");
    assert!(!authorize(&secret, Some(&header)));
}

#[test]
fn missing_credential_fails() {
    let secret = String::from("s3cr3t");
    assert!(!authorize(&secret, None));
}

#[test]
fn comparison_is_exact() {
    let secret = String::from("s3cr3t");
    for near_miss in ["s3cr3t ", " s3cr3t", "S3cr3t", "s3cr3", ""] {
        let header = String::from(near_miss);
        assert!(!authorize(&secret, Some(&header)));
    }
    let empty_secret = String::new();
    let empty_header = String::new();
    assert!(authorize(&empty_secret, Some(&empty_header)));
}
