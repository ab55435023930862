use vstd::prelude::*;

verus! {

/// One response header of a captured request.
#[derive(Debug, Clone)]
pub struct HarHeader {
    pub name: String,
    pub value: String,
}

/// The parts of a captured request and response that manifest extraction
/// reads.
#[derive(Debug, Clone)]
pub struct HarEntry {
    pub mime_type: String,
    pub encoding: Option<String>,
    pub text: Option<String>,
    pub url: String,
    pub headers: Vec<HarHeader>,
}

/// A manifest found in a capture: the file name to save it under and its
/// text.
#[derive(Debug, Clone)]
pub struct ExtractedManifest {
    pub file_name: String,
    pub text: String,
}

/// Why a manifest of a capture cannot be saved.
#[derive(Debug, Clone, Copy, PartialEq, Eq, Structural)]
pub enum HarError {
    EntryWithoutText,
    UnparsableDate,
    UnparsableUrl,
    UrlWithoutFileName,
}

/// An RFC 2822 date written out with a strftime-style format, or `None`
/// when the text is not such a date.
pub uninterp spec fn rfc2822_formatted(s: Seq<char>, fmt: Seq<char>) -> Option<Seq<char>>;

/// The path segments of an absolute URL: `None` when the text does not
/// parse, `Some(None)` for a URL that cannot be a base.
pub uninterp spec fn url_path_segments_of(s: Seq<char>) -> Option<Option<Seq<Seq<char>>>>;

/// Relies on chrono's `DateTime::parse_from_rfc2822` and `DateTime::format`:
/// the text depends on the date and the format alone. Only the format that
/// file names use is admitted; chrono panics on a format it cannot read.
#[verifier::external_body]
fn format_rfc2822(s: &str, fmt: &str) -> (r: Option<String>)
    requires
        fmt@ == "%Y-%m-%d-%H-%M-%S"@,
    ensures
        match r {
            Some(t) => rfc2822_formatted(s@, fmt@) == Some(t@),
            None => rfc2822_formatted(s@, fmt@) is None,
        },
{
    match chrono::DateTime::parse_from_rfc2822(s) {
        Ok(d) => Some(d.format(fmt).to_string()),
        Err(_) => None,
    }
}

/// Relies on url's `Url::parse` and `Url::path_segments`: the segments
/// depend on the text alone, and when there are any there is at least one.
#[verifier::external_body]
fn url_path_segments(s: &str) -> (r: Option<Option<Vec<String>>>)
    ensures
        match r {
            None => url_path_segments_of(s@) is None,
            Some(None) => url_path_segments_of(s@) == Some(None::<Seq<Seq<char>>>),
            Some(Some(v)) => url_path_segments_of(s@) == Some(Some(v@.map_values(|x: String| x@))) && v@.len() >= 1,
        },
{
    match url::Url::parse(s) {
        Ok(u) => match u.path_segments() {
            Some(segments) => Some(Some(segments.map(String::from).collect())),
            None => Some(None),
        },
        Err(_) => None,
    }
}

/// The file name of a manifest served at a URL with the given path
/// segments, on the given date written out: `<date>-<last segment>`.
pub open spec fn file_name_spec(stamp: Option<Seq<char>>, segments: Option<Option<Seq<Seq<char>>>>) -> Result<Seq<char>, HarError> {
    match stamp {
        None => Err(HarError::UnparsableDate),
        Some(f) => match segments {
            None => Err(HarError::UnparsableUrl),
            Some(None) => Err(HarError::UrlWithoutFileName),
            Some(Some(ss)) => if ss.len() == 0 {
                Err(HarError::UrlWithoutFileName)
            } else {
                Ok(f + "-"@ + ss.last())
            },
        },
    }
}

/// The value of the first header named `date` from index `i` on, or
/// `Unknown Date`.
pub open spec fn date_header_from(hs: Seq<HarHeader>, i: nat) -> Seq<char>
    decreases hs.len() - i,
{
    if i >= hs.len() {
        "Unknown Date"@
    } else if hs[i as int].name@ == "date"@ {
        hs[i as int].value@
    } else {
        date_header_from(hs, i + 1)
    }
}

/// Whether an entry holds a DASH manifest as plain text.
pub open spec fn is_manifest_entry(e: HarEntry) -> bool {
    &&& e.mime_type@ == "application/dash+xml"@
    &&& !(e.encoding is Some && e.encoding.unwrap()@ == "base64"@)
}

/// What becomes of one entry: `None` when it is skipped, else the file name
/// and text of its manifest, or why it cannot be saved.
pub open spec fn entry_spec(e: HarEntry) -> Option<Result<(Seq<char>, Seq<char>), HarError>> {
    if !is_manifest_entry(e) {
        None
    } else {
        match e.text {
            None => Some(Err(HarError::EntryWithoutText)),
            Some(t) => match file_name_spec(
                rfc2822_formatted(date_header_from(e.headers@, 0), "%Y-%m-%d-%H-%M-%S"@),
                url_path_segments_of(e.url@),
            ) {
                Ok(name) => Some(Ok((name, t@))),
                Err(x) => Some(Err(x)),
            },
        }
    }
}

/// The manifests of the first `n` entries, in order, or the first failure.
pub open spec fn select_prefix(es: Seq<HarEntry>, n: nat) -> Result<Seq<(Seq<char>, Seq<char>)>, HarError>
    decreases n,
{
    if n == 0 {
        Ok(Seq::empty())
    } else {
        match select_prefix(es, (n - 1) as nat) {
            Err(x) => Err(x),
            Ok(found) => match entry_spec(es[n - 1]) {
                None => Ok(found),
                Some(Err(x)) => Err(x),
                Some(Ok(m)) => Ok(found.push(m)),
            },
        }
    }
}

proof fn lemma_select_fault_persists(es: Seq<HarEntry>, k: nat, m: nat)
    requires
        k <= m,
        select_prefix(es, k) is Err,
    ensures
        select_prefix(es, m) == select_prefix(es, k),
    decreases m - k,
{
    if k < m {
        lemma_select_fault_persists(es, k, (m - 1) as nat);
    }
}

/// The file name for a manifest from the written-out date of its response
/// and the path segments of its URL.
pub fn manifest_file_name(stamp: Option<String>, segments: Option<Option<Vec<String>>>) -> (r: Result<String, HarError>)
    ensures
        match r {
            Ok(n) => file_name_spec(match stamp {
                Some(t) => Some(t@),
                None => None,
            }, match segments {
                None => None,
                Some(None) => Some(None),
                Some(Some(v)) => Some(Some(v@.map_values(|x: String| x@))),
            }) == Ok::<Seq<char>, HarError>(n@),
            Err(x) => file_name_spec(match stamp {
                Some(t) => Some(t@),
                None => None,
            }, match segments {
                None => None,
                Some(None) => Some(None),
                Some(Some(v)) => Some(Some(v@.map_values(|x: String| x@))),
            }) == Err::<Seq<char>, HarError>(x),
        },
{
    let mut s = match stamp {
        Some(t) => t,
        None => return Err(HarError::UnparsableDate),
    };
    let v = match segments {
        None => return Err(HarError::UnparsableUrl),
        Some(None) => return Err(HarError::UrlWithoutFileName),
        Some(Some(v)) => v,
    };
    let n = v.len();
    if n == 0 {
        return Err(HarError::UrlWithoutFileName);
    }
    s.append("-");
    s.append(v[n - 1].as_str());
    Ok(s)
}

fn date_header(hs: &Vec<HarHeader>) -> (r: &str)
    ensures
        r@ == date_header_from(hs@, 0),
{
    let n = hs.len();
    let mut i: usize = 0;
    while i < n
        invariant
            n == hs@.len(),
            0 <= i <= n,
            date_header_from(hs@, 0) == date_header_from(hs@, i as nat),
        decreases n - i,
    {
        if hs[i].name == String::from_str("date") {
            return hs[i].value.as_str();
        }
        i = i + 1;
    }
    "Unknown Date"
}

fn is_manifest(e: &HarEntry) -> (r: bool)
    ensures
        r == is_manifest_entry(*e),
{
    if e.mime_type != String::from_str("application/dash+xml") {
        return false;
    }
    match &e.encoding {
        Some(enc) => *enc != String::from_str("base64"),
        None => true,
    }
}

/// Picks the plain-text DASH manifests out of a capture's entries and
/// names each after the date of its response and the last path segment of
/// its URL.
pub fn select_manifests(entries: &Vec<HarEntry>) -> (r: Result<Vec<ExtractedManifest>, HarError>)
    ensures
        match r {
            Ok(v) => select_prefix(entries@, entries@.len()) == Ok::<Seq<(Seq<char>, Seq<char>)>, HarError>(
                v@.map_values(|m: ExtractedManifest| (m.file_name@, m.text@)),
            ),
            Err(x) => select_prefix(entries@, entries@.len()) == Err::<Seq<(Seq<char>, Seq<char>)>, HarError>(x),
        },
{
    let n = entries.len();
    let mut out: Vec<ExtractedManifest> = Vec::new();
    let mut i: usize = 0;
    assert(out@.map_values(|m: ExtractedManifest| (m.file_name@, m.text@)) =~= Seq::<(Seq<char>, Seq<char>)>::empty());
    while i < n
        invariant
            n == entries@.len(),
            0 <= i <= n,
            select_prefix(entries@, i as nat) == Ok::<Seq<(Seq<char>, Seq<char>)>, HarError>(
                out@.map_values(|m: ExtractedManifest| (m.file_name@, m.text@)),
            ),
        decreases n - i,
    {
        let e = &entries[i];
        if is_manifest(e) {
            let text = match &e.text {
                Some(t) => t,
                None => {
                    proof {
                        lemma_select_fault_persists(entries@, (i + 1) as nat, n as nat);
                    }
                    return Err(HarError::EntryWithoutText);
                },
            };
            let stamp = format_rfc2822(date_header(&e.headers), "%Y-%m-%d-%H-%M-%S");
            let segments = url_path_segments(e.url.as_str());
            let file_name = match manifest_file_name(stamp, segments) {
                Ok(name) => name,
                Err(x) => {
                    proof {
                        lemma_select_fault_persists(entries@, (i + 1) as nat, n as nat);
                    }
                    return Err(x);
                },
            };
            let m = ExtractedManifest { file_name, text: text.clone() };
            let ghost before = out@;
            out.push(m);
            proof {
                assert(out@.map_values(|m: ExtractedManifest| (m.file_name@, m.text@))
                    =~= before.map_values(|m: ExtractedManifest| (m.file_name@, m.text@)).push((m.file_name@, m.text@)));
            }
        }
        i = i + 1;
    }
    Ok(out)
}

} // verus!
