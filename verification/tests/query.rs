use reportmate::cli::InventoryFilters;
use reportmate::error::CliError;
use reportmate::query::{query_string, urlencode, Query};

#[test]
fn urlencode_leaves_unreserved_chars() {
    assert_eq!(urlencode("aZ09-_.~"), "aZ09-_.~");
}

#[test]
fn urlencode_percent_encodes_reserved() {
    assert_eq!(urlencode("a b"), "a%20b");
    assert_eq!(urlencode("k=v&x"), "k%3Dv%26x");
    assert_eq!(urlencode("/full"), "%2Ffull");
}

#[test]
fn urlencode_handles_multibyte_utf8() {
    // é is two UTF-8 bytes; both must be percent-encoded.
    assert_eq!(urlencode("é"), "%C3%A9");
}

#[test]
fn query_string_empty_when_no_pairs() {
    assert_eq!(query_string(&[]), "");
}

#[test]
fn query_string_joins_and_encodes() {
    let pairs = vec![
        ("limit".to_string(), "10".to_string()),
        ("q".to_string(), "a b".to_string()),
    ];
    assert_eq!(query_string(&pairs), "?limit=10&q=a%20b");
}

#[test]
fn query_builder_skips_absent_values() {
    let q = Query::new()
        .opt("limit", None::<u32>)
        .flag("includeArchived", false)
        .opt("days", Some(7))
        .flag("summary", true);
    assert_eq!(q.path("/x"), "/x?days=7&summary=true");
}

#[test]
fn query_builder_appends_raw_params() {
    let q = Query::new()
        .set("a", 1)
        .params(&["b=two".to_string(), "c=3".to_string()])
        .unwrap();
    assert_eq!(q.path("/x"), "/x?a=1&b=two&c=3");
    assert!(Query::new().params(&["novalue".to_string()]).is_err());
}

#[test]
fn urlencode_encodes_every_byte_of_wide_characters() {
    assert_eq!(urlencode("€"), "%E2%82%AC");
    assert_eq!(urlencode("😀"), "%F0%9F%98%80");
    assert_eq!(urlencode(""), "");
    assert_eq!(urlencode("%"), "%25");
    assert_eq!(urlencode("a+b,c"), "a%2Bb%2Cc");
}

#[test]
fn urlencode_of_joined_text_is_joined_encodings() {
    let a = "Adobe Photoshop";
    let b = "é/ü";
    let whole = format!("{a}{b}");
    assert_eq!(urlencode(&whole), format!("{}{}", urlencode(a), urlencode(b)));
}

#[test]
fn query_string_encodes_keys_too() {
    let pairs = vec![("a b".to_string(), "c&d".to_string())];
    assert_eq!(query_string(&pairs), "?a%20b=c%26d");
}

#[test]
fn query_without_parameters_leaves_the_path_alone() {
    assert_eq!(Query::new().path("/api/v1/devices"), "/api/v1/devices");
    assert_eq!(Query::new().flag("x", false).opt("y", None::<String>).path("/p"), "/p");
}

#[test]
fn query_values_of_each_kind() {
    let q = Query::new()
        .set("u", 7u32)
        .set("big", 18446744073709551615u64)
        .set("neg", -3i32)
        .set("s", "a b".to_string())
        .set("r", "x");
    assert_eq!(q.path("/p"), "/p?u=7&big=18446744073709551615&neg=-3&s=a%20b&r=x");
}

#[test]
fn query_params_split_at_the_first_equals_sign() {
    let q = Query::new().params(&["k=a=b".to_string(), "e=".to_string()]).unwrap();
    assert_eq!(q.path("/p"), "/p?k=a%3Db&e=");
}

#[test]
fn query_params_name_the_first_bad_one() {
    let r = Query::new().params(&["a=1".to_string(), "bad".to_string(), "worse".to_string()]);
    assert_eq!(r.err().unwrap(), CliError::BadParam("bad".to_string()));
}

#[test]
fn query_filters_are_sent_in_their_order() {
    let f = InventoryFilters {
        usages: Some("lab".to_string()),
        catalogs: None,
        locations: Some("North Van".to_string()),
        areas: None,
        fleets: Some("Lab".to_string()),
        rooms: None,
        platforms: Some("macos".to_string()),
    };
    assert_eq!(
        Query::new().filters(&f).path("/a"),
        "/a?usages=lab&locations=North%20Van&fleets=Lab&platforms=macos"
    );
}

fn percent_decode(s: &str) -> String {
    let b = s.as_bytes();
    let mut out = Vec::new();
    let mut i = 0;
    while i < b.len() {
        if b[i] == b'%' && i + 2 < b.len() {
            out.push(u8::from_str_radix(&s[i + 1..i + 3], 16).unwrap());
            i += 3;
        } else {
            out.push(b[i]);
            i += 1;
        }
    }
    String::from_utf8(out).unwrap()
}

#[test]
fn url_encoding_decodes_back_and_uses_a_small_alphabet() {
    for s in ["a b", "k=v&x", "é/ü", "😀 100%", "aZ09-_.~", ""] {
        let e = urlencode(s);
        assert_eq!(percent_decode(&e), s);
        assert!(e.chars().all(|c| c.is_ascii_alphanumeric() || "-_.~%".contains(c)), "{e}");
    }
}

#[test]
fn query_string_reads_back_as_its_pairs() {
    let pairs = vec![
        ("q".to_string(), "a=b&c".to_string()),
        ("é".to_string(), "".to_string()),
        ("k".to_string(), "v".to_string()),
    ];
    let q = query_string(&pairs);
    assert!(q.starts_with('?'));
    let back: Vec<(String, String)> = q[1..]
        .split('&')
        .map(|piece| {
            let kv: Vec<&str> = piece.split('=').collect();
            assert_eq!(kv.len(), 2);
            (percent_decode(kv[0]), percent_decode(kv[1]))
        })
        .collect();
    assert_eq!(back, pairs);
}
