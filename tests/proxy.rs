use imageflow_proxy::handler::{on_fetched, on_transformed, start, upstream_error, help_reply, Stage};
use imageflow_proxy::locator::{parse_s3_path, ObjectLocator};
use imageflow_proxy::query::{get_query_value, lookup_first};

fn locator(region: &str, bucket: &str, key: &str) -> ObjectLocator {
    ObjectLocator { region: region.to_string(), bucket: bucket.to_string(), key: key.to_string() }
}

fn parts(path: &str) -> Option<(String, String, String)> {
    parse_s3_path(path).map(|l| (l.region, l.bucket, l.key))
}

fn some(r: &str, b: &str, k: &str) -> Option<(String, String, String)> {
    Some((r.to_string(), b.to_string(), k.to_string()))
}

#[test]
fn parses_well_formed_path() {
    assert_eq!(parts("s3/us-west-2/my-bucket/a/b.jpg"), some("us-west-2", "my-bucket", "a/b.jpg"));
    assert_eq!(
        parts("s3/us-west-2/imageflow-resources/test_inputs/u1.jpg"),
        some("us-west-2", "imageflow-resources", "test_inputs/u1.jpg")
    );
}

#[test]
fn parses_dotted_bucket_and_keeps_key_verbatim() {
    assert_eq!(parts("s3/eu-1/my.bucket.v2/ a//b?c=d "), some("eu-1", "my.bucket.v2", " a//b?c=d "));
    assert_eq!(parts("s3/r/b/ünïcode/ñ.png"), some("r", "b", "ünïcode/ñ.png"));
}

#[test]
fn accepts_empty_key() {
    assert_eq!(parts("s3/us-east-1/bucket/"), some("us-east-1", "bucket", ""));
}

#[test]
fn rejects_malformed_paths() {
    assert_eq!(parts(""), None);
    assert_eq!(parts("us-west-2/bucket/key"), None);
    assert_eq!(parts("S3/us-west-2/bucket/key"), None);
    assert_eq!(parts("s3/US-WEST-2/bucket/key"), None);
    assert_eq!(parts("s3/us-west-2/Bucket/key"), None);
    assert_eq!(parts("s3/us.west/bucket/key"), None);
    assert_eq!(parts("s3//bucket/key"), None);
    assert_eq!(parts("s3/us-west-2//key"), None);
    assert_eq!(parts("s3/us-west-2/bucket"), None);
    assert_eq!(parts("s3/"), None);
    assert_eq!(parts("x/s3/us-west-2/bucket/key"), None);
}

#[test]
fn query_value_absent_is_empty() {
    assert_eq!(get_query_value("", "imageflow_path"), "");
    assert_eq!(get_query_value("width=400&height=3", "imageflow_path"), "");
    assert_eq!(get_query_value("imageflow_paths=x", "imageflow_path"), "");
}

#[test]
fn query_value_first_binding_wins() {
    assert_eq!(get_query_value("a=1&b=2&a=3", "a"), "1");
    assert_eq!(get_query_value("b=2&a=3&a=1", "a"), "3");
    assert_eq!(get_query_value("a", "a"), "");
    assert_eq!(get_query_value("&&a=x=y", "a"), "x=y");
}

#[test]
fn query_value_is_decoded() {
    assert_eq!(get_query_value("p=s3%2Fus-west-2%2Fb%2Fk+1.jpg", "p"), "s3/us-west-2/b/k 1.jpg");
}

#[test]
fn lookup_first_on_pairs() {
    let pairs = vec![
        ("x".to_string(), "1".to_string()),
        ("k".to_string(), "first".to_string()),
        ("k".to_string(), "second".to_string()),
    ];
    assert_eq!(lookup_first(&pairs, "k"), "first");
    assert_eq!(lookup_first(&pairs, "y"), "");
    assert_eq!(lookup_first(&Vec::new(), "k"), "");
}

#[test]
fn round_trip_routes_and_forwards_whole_query() {
    let q = "imageflow_path=s3/us-west-2/my-bucket/a/b.jpg&width=400";
    match start(q) {
        Stage::Fetch { locator, command } => {
            assert_eq!(locator.region, "us-west-2");
            assert_eq!(locator.bucket, "my-bucket");
            assert_eq!(locator.key, "a/b.jpg");
            assert_eq!(command, q);
            match on_fetched(locator, command, Ok((vec![1, 2, 3], 200))) {
                Stage::Transform { source, command } => {
                    assert_eq!(source, vec![1, 2, 3]);
                    assert_eq!(command, q);
                }
                _ => panic!("expected a transform"),
            }
        }
        _ => panic!("expected a fetch"),
    }
}

#[test]
fn scenario_help_without_path() {
    match start("width=400") {
        Stage::Replied(r) => {
            assert_eq!(r.status, 200);
            assert_eq!(r.content_type, "text/plain");
            let body = String::from_utf8(r.body).unwrap();
            assert!(body.starts_with("Received path \n"));
            assert!(body.contains("s3/[region]/[bucket]/path"));
            assert!(body.contains("Example: /api/imageflow/s3/us-west-2/imageflow-resources/test_inputs/u1.jpg?width=400"));
        }
        _ => panic!("expected the usage reply"),
    }
}

#[test]
fn scenario_help_echoes_unmatched_path() {
    match start("imageflow_path=S3/Bad/x") {
        Stage::Replied(r) => {
            assert_eq!(r.status, 200);
            let body = String::from_utf8(r.body).unwrap();
            assert!(body.starts_with("Received path S3/Bad/x\n"));
        }
        _ => panic!("expected the usage reply"),
    }
    let r = help_reply("héllo");
    assert!(String::from_utf8(r.body).unwrap().starts_with("Received path héllo\n"));
}

#[test]
fn scenario_success() {
    let out = vec![0xff, 0xd8, 0xff, 0x00];
    match on_transformed(Ok((out.clone(), "image/jpeg".to_string()))) {
        Stage::Replied(r) => {
            assert_eq!(r.status, 200);
            assert_eq!(r.content_type, "image/jpeg");
            assert_eq!(r.body, out);
        }
        _ => panic!("expected a reply"),
    }
}

#[test]
fn scenario_upstream_failure() {
    match on_fetched(locator("us-west-2", "my-bucket", "a/b.jpg"), "q".to_string(), Ok((vec![9], 404))) {
        Stage::Failed(m) => {
            assert_eq!(m, "Upstream HTTP error 404 for S3 region us-west-2 bucket my-bucket path a/b.jpg");
        }
        _ => panic!("expected a failure"),
    }
}

#[test]
fn fetch_status_edges() {
    let go = |code: u16| on_fetched(locator("r", "b", "k"), "q".to_string(), Ok((vec![], code)));
    assert!(matches!(go(199), Stage::Failed(_)));
    assert!(matches!(go(200), Stage::Transform { .. }));
    assert!(matches!(go(299), Stage::Transform { .. }));
    assert!(matches!(go(300), Stage::Failed(_)));
    match go(0) {
        Stage::Failed(m) => assert_eq!(m, "Upstream HTTP error 0 for S3 region r bucket b path k"),
        _ => panic!("expected a failure"),
    }
    match go(65535) {
        Stage::Failed(m) => assert!(m.starts_with("Upstream HTTP error 65535 for")),
        _ => panic!("expected a failure"),
    }
}

#[test]
fn fetch_client_error_passes_message() {
    match on_fetched(locator("r", "b", "k"), "q".to_string(), Err("connection refused".to_string())) {
        Stage::Failed(m) => assert_eq!(m, "connection refused"),
        _ => panic!("expected a failure"),
    }
}

#[test]
fn scenario_transform_failure() {
    match on_transformed(Err("unsupported format".to_string())) {
        Stage::Failed(m) => assert_eq!(m, "unsupported format"),
        _ => panic!("expected a failure"),
    }
}

#[test]
fn upstream_error_message_digits() {
    assert_eq!(upstream_error(503, &locator("a", "b", "c")), "Upstream HTTP error 503 for S3 region a bucket b path c");
    assert_eq!(upstream_error(7, &locator("a", "b", "")), "Upstream HTTP error 7 for S3 region a bucket b path ");
}

fn run(q: &str) -> (u16, String, Vec<u8>) {
    match start(q) {
        Stage::Replied(r) => (r.status, r.content_type, r.body),
        Stage::Fetch { locator, command } => match on_fetched(locator, command, Ok((vec![1, 2], 200))) {
            Stage::Transform { source, command } => {
                let mut out = source.clone();
                out.extend_from_slice(command.as_bytes());
                match on_transformed(Ok((out, "image/png".to_string()))) {
                    Stage::Replied(r) => (r.status, r.content_type, r.body),
                    _ => panic!("expected a reply"),
                }
            }
            _ => panic!("expected a transform"),
        },
        _ => panic!("unexpected stage"),
    }
}

#[test]
fn repeated_request_is_identical() {
    let q = "imageflow_path=s3/us-west-2/my-bucket/a/b.jpg&width=400";
    assert_eq!(run(q), run(q));
    assert_eq!(run("nothing=1"), run("nothing=1"));
}
