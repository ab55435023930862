use dmpd::{manifest_file_name, select_manifests, HarEntry, HarError, HarHeader};

fn dash_entry(url: &str, date: Option<&str>, text: Option<&str>) -> HarEntry {
    let mut headers = vec![HarHeader { name: "content-type".to_string(), value: "application/dash+xml".to_string() }];
    if let Some(d) = date {
        headers.push(HarHeader { name: "date".to_string(), value: d.to_string() });
    }
    HarEntry {
        mime_type: "application/dash+xml".to_string(),
        encoding: None,
        text: text.map(|t| t.to_string()),
        url: url.to_string(),
        headers,
    }
}

const DATE: &str = "Wed, 18 Feb 2015 23:16:09 GMT";

#[test]
fn dates_are_written_by_chrono() {
    let leap = dash_entry("https://cdn.example.com/live/stream.mpd", Some("Wed, 31 Dec 2014 23:59:60 GMT"), Some("<MPD/>"));
    let found = select_manifests(&vec![leap]).unwrap();
    assert_eq!(found[0].file_name, "2014-12-31-23-59-60-stream.mpd");
    let early = dash_entry("https://cdn.example.com/a.mpd", Some("Mon, 2 Mar 2015 04:05:06 +0100"), Some("<MPD/>"));
    let found = select_manifests(&vec![early]).unwrap();
    assert_eq!(found[0].file_name, "2015-03-02-04-05-06-a.mpd");
}

#[test]
fn file_names_join_date_and_last_segment() {
    let date = Some("2015-02-18-23-16-09".to_string());
    let segs = Some(Some(vec!["live".to_string(), "manifest.mpd".to_string()]));
    assert_eq!(manifest_file_name(date.clone(), segs.clone()).unwrap(), "2015-02-18-23-16-09-manifest.mpd");
    assert_eq!(manifest_file_name(None, segs), Err(HarError::UnparsableDate));
    assert_eq!(manifest_file_name(date.clone(), None), Err(HarError::UnparsableUrl));
    assert_eq!(manifest_file_name(date, Some(None)), Err(HarError::UrlWithoutFileName));
}

#[test]
fn manifests_are_picked_and_named() {
    let mut other = dash_entry("https://cdn.example.com/a.js", Some(DATE), Some("x"));
    other.mime_type = "text/javascript".to_string();
    let mut encoded = dash_entry("https://cdn.example.com/b.mpd", Some(DATE), Some("PE1QRD4="));
    encoded.encoding = Some("base64".to_string());
    let good = dash_entry("https://cdn.example.com/live/stream.mpd?token=1", Some(DATE), Some("<MPD/>"));
    let found = select_manifests(&vec![other, encoded, good]).unwrap();
    assert_eq!(found.len(), 1);
    assert_eq!(found[0].file_name, "2015-02-18-23-16-09-stream.mpd");
    assert_eq!(found[0].text, "<MPD/>");
}

#[test]
fn capture_failures_are_reported() {
    let no_date = dash_entry("https://cdn.example.com/s.mpd", None, Some("<MPD/>"));
    assert_eq!(select_manifests(&vec![no_date]).unwrap_err(), HarError::UnparsableDate);
    let no_text = dash_entry("https://cdn.example.com/s.mpd", Some(DATE), None);
    assert_eq!(select_manifests(&vec![no_text]).unwrap_err(), HarError::EntryWithoutText);
    let bad_url = dash_entry("not a url", Some(DATE), Some("<MPD/>"));
    assert_eq!(select_manifests(&vec![bad_url]).unwrap_err(), HarError::UnparsableUrl);
    let no_base = dash_entry("data:text/plain,HelloWorld", Some(DATE), Some("<MPD/>"));
    assert_eq!(select_manifests(&vec![no_base]).unwrap_err(), HarError::UrlWithoutFileName);
}
