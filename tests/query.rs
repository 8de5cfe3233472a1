use webhook_sender::query::{dispatch_uri, rewrite_query_pairs};

fn pairs(p: &[(&str, &str)]) -> Vec<(String, String)> {
    p.iter().map(|(k, v)| (k.to_string(), v.to_string())).collect()
}

#[test]
fn wait_false_becomes_wait_true_last() {
    let uri = dispatch_uri(&"https://discord.com/api/webhooks/1/tok?wait=false&foo=1".to_string()).unwrap();
    assert_eq!(uri, "https://discord.com/api/webhooks/1/tok?foo=1&wait=true");
    assert_eq!(uri.split('?').nth(1), Some("foo=1&wait=true"));
}

#[test]
fn no_query_gets_wait_true() {
    let uri = dispatch_uri(&"https://discord.com/api/webhooks/1/tok".to_string()).unwrap();
    assert_eq!(uri, "https://discord.com/api/webhooks/1/tok?wait=true");
}

#[test]
fn every_wait_is_dropped_and_order_kept() {
    let uri = dispatch_uri(&"https://discord.com/x?b=2&wait=1&a=1&wait=true&thread_id=9".to_string()).unwrap();
    assert_eq!(uri, "https://discord.com/x?b=2&a=1&thread_id=9&wait=true");
}

#[test]
fn not_a_url_is_refused() {
    assert_eq!(dispatch_uri(&"no url at all".to_string()), None);
}

#[test]
fn rewrite_pairs() {
    let out = rewrite_query_pairs(&pairs(&[("wait", "false"), ("foo", "1")]));
    assert_eq!(out, pairs(&[("foo", "1"), ("wait", "true")]));
    let out = rewrite_query_pairs(&Vec::new());
    assert_eq!(out, pairs(&[("wait", "true")]));
    let out = rewrite_query_pairs(&pairs(&[("a", "wait"), ("Wait", "x")]));
    assert_eq!(out, pairs(&[("a", "wait"), ("Wait", "x"), ("wait", "true")]));
}
