//! Reading an explorer's answer: the API status, the `SourceCode` field, and
//! the files it stands for.
use vstd::prelude::*;
use crate::json::{Json, parse_json, parsed_json, member, text_of, str_member, unique_keys, keys_unique_to, lemma_member_keys_unique, get_member, get_str_member};
use crate::text::{chars_of, string_of, has_pair, collapse, find_pair, collapse_pairs};

verus! {

/// Why an explorer's answer yields no source files.
#[derive(Debug)]
pub enum ProtocolError {
    /// The body is not JSON; the parser's message.
    NotJson { detail: String },
    /// The API reported a status other than "1".
    Api { message: String, result: String },
    /// The answer has no `result` array.
    NoResultArray,
    /// The first result has no `SourceCode` string.
    NoSourceCode,
    /// The contract has no public (verified) source.
    EmptySource,
    /// A multi-file source is not JSON; the parser's message.
    MalformedSource { detail: String },
    /// A multi-file source has no `sources` object.
    NoSources,
}

/// One file to write: its path relative to the source directory, and its
/// text.
pub struct SourceFile {
    pub path: String,
    pub content: String,
}

/// The (path, content) pairs of a list of files.
pub open spec fn files_view(v: Seq<SourceFile>) -> Seq<(Seq<char>, Seq<char>)> {
    v.map_values(|f: SourceFile| (f.path@, f.content@))
}

/// `o` when present, else `d`.
pub open spec fn or_default(o: Option<Seq<char>>, d: Seq<char>) -> Seq<char> {
    match o {
        Some(x) => x,
        None => d,
    }
}

/// The message and detail that an answer with a failing status carries;
/// `None` when the status is absent or is the string "1". Any other status,
/// of whatever JSON type, is a failure.
pub open spec fn api_failure(j: Json) -> Option<(Seq<char>, Seq<char>)> {
    match member(j, "status"@) {
        Some(st) => if text_of(st) != Some("1"@) {
            Some((
                or_default(str_member(j, "message"@), "Unknown error"@),
                or_default(str_member(j, "result"@), "No additional info"@),
            ))
        } else {
            None
        },
        None => None,
    }
}

/// `e` is the error for a body that the parser refused with message `m`.
pub open spec fn not_json(e: ProtocolError, m: Seq<char>) -> bool {
    match e {
        ProtocolError::NotJson { detail } => detail@ == m,
        _ => false,
    }
}

/// `r` reports the API failure `f`.
pub open spec fn reports(r: ProtocolError, f: (Seq<char>, Seq<char>)) -> bool {
    match r {
        ProtocolError::Api { message, result } => message@ == f.0 && result@ == f.1,
        _ => false,
    }
}

/// Reads an explorer's answer body: it must be JSON, and a `status`, where
/// there is one, must be the string "1". The answer is handed back whole.
pub fn check_response(body: &str) -> (r: Result<Json, ProtocolError>)
    ensures
        match parsed_json(body@) {
            Err(m) => r is Err && not_json(r->Err_0, m),
            Ok(j) => match api_failure(j) {
                Some(f) => r is Err && reports(r->Err_0, f),
                None => r == Ok::<Json, ProtocolError>(j),
            },
        },
{
    let j = match parse_json(body) {
        Ok(j) => j,
        Err(detail) => return Err(ProtocolError::NotJson { detail }),
    };
    let failed = match get_member(&j, "status") {
        Some(Json::Str(st)) => *st != String::from_str("1"),
        Some(_) => true,
        None => false,
    };
    if failed {
        let message = match get_str_member(&j, "message") {
            Some(m) => m.clone(),
            None => String::from_str("Unknown error"),
        };
        let result = match get_str_member(&j, "result") {
            Some(x) => x.clone(),
            None => String::from_str("No additional info"),
        };
        return Err(ProtocolError::Api { message, result });
    }
    Ok(j)
}

/// The `SourceCode` string of the first element of the `result` array.
pub open spec fn source_code(envelope: Json) -> Result<Seq<char>, ProtocolError> {
    match member(envelope, "result"@) {
        Some(Json::Array(items)) => if items@.len() > 0 {
            match str_member(items@[0], "SourceCode"@) {
                Some(s) => Ok(s),
                None => Err(ProtocolError::NoSourceCode),
            }
        } else {
            Err(ProtocolError::NoSourceCode)
        },
        _ => Err(ProtocolError::NoResultArray),
    }
}

/// Finds the `SourceCode` string of the first result in an answer.
pub fn get_source_code(envelope: &Json) -> (r: Result<&String, ProtocolError>)
    ensures
        match r {
            Ok(s) => source_code(*envelope) == Ok::<Seq<char>, ProtocolError>(s@),
            Err(e) => source_code(*envelope) == Err::<Seq<char>, ProtocolError>(e),
        },
{
    match get_member(envelope, "result") {
        Some(Json::Array(items)) => {
            if items.len() == 0 {
                return Err(ProtocolError::NoSourceCode);
            }
            match get_str_member(&items[0], "SourceCode") {
                Some(s) => Ok(s),
                None => Err(ProtocolError::NoSourceCode),
            }
        },
        _ => Err(ProtocolError::NoResultArray),
    }
}

/// A multi-file source with doubled braces made single; a source without
/// `{{` is left as it is.
pub open spec fn normalized(s: Seq<char>) -> Seq<char> {
    if has_pair(s, '{') {
        collapse(collapse(s, '{'), '}')
    } else {
        s
    }
}

/// The (path, content) pairs of the entries whose value has a `content`
/// string, in order; the others are left out.
pub open spec fn content_files(entries: Seq<(String, Json)>) -> Seq<(Seq<char>, Seq<char>)>
    decreases entries.len(),
{
    if entries.len() == 0 {
        Seq::empty()
    } else {
        let rest = content_files(entries.drop_last());
        match str_member(entries.last().1, "content"@) {
            Some(c) => rest.push((entries.last().0@, c)),
            None => rest,
        }
    }
}

/// The files that a `SourceCode` value stands for; `None` when it stands
/// for none.
pub open spec fn decoded(s: Seq<char>) -> Option<Seq<(Seq<char>, Seq<char>)>> {
    if s.len() == 0 {
        None
    } else if s[0] != '{' {
        Some(seq![("Single.sol"@, s)])
    } else {
        match parsed_json(normalized(s)) {
            Err(_) => None,
            Ok(j) => match member(j, "sources"@) {
                Some(Json::Object(entries)) => Some(content_files(entries@)),
                _ => None,
            },
        }
    }
}

/// `e` is the error that a `SourceCode` value that stands for no files is
/// refused with.
pub open spec fn decode_error(s: Seq<char>, e: ProtocolError) -> bool {
    if s.len() == 0 {
        e is EmptySource
    } else {
        match parsed_json(normalized(s)) {
            Err(m) => match e {
                ProtocolError::MalformedSource { detail } => detail@ == m,
                _ => false,
            },
            Ok(_) => e is NoSources,
        }
    }
}

/// No two files share a path.
pub open spec fn unique_paths(files: Seq<(Seq<char>, Seq<char>)>) -> bool {
    forall|a: int, b: int| 0 <= a < b < files.len() ==> files[a].0 != files[b].0
}

/// The keys of a list of object entries.
pub open spec fn keys(entries: Seq<(String, Json)>) -> Seq<Seq<char>> {
    entries.map_values(|e: (String, Json)| e.0@)
}

/// The files taken from a `sources` object have paths among its keys, and
/// distinct paths where its keys are distinct.
pub proof fn lemma_content_paths(entries: Seq<(String, Json)>)
    ensures
        forall|k: int| 0 <= k < content_files(entries).len() ==> keys(entries).contains(#[trigger] content_files(entries)[k].0),
        unique_keys(entries) ==> unique_paths(content_files(entries)),
    decreases entries.len(),
{
    if entries.len() > 0 {
        let init = entries.drop_last();
        lemma_content_paths(init);
        let cf = content_files(entries);
        let ci = content_files(init);
        assert forall|k: int| 0 <= k < ci.len() implies keys(entries).contains(#[trigger] ci[k].0) by {
            let i = choose|i: int| 0 <= i < keys(init).len() && keys(init)[i] == ci[k].0;
            assert(keys(entries)[i] == keys(init)[i]);
        }
        assert(keys(entries)[entries.len() - 1] == entries.last().0@);
        if unique_keys(entries) {
            assert(unique_keys(init)) by {
                assert forall|a: int, b: int| 0 <= a < b < init.len() implies init[a].0@ != init[b].0@ by {
                    assert(init[a] == entries[a] && init[b] == entries[b]);
                }
            }
            assert forall|k: int| 0 <= k < ci.len() implies #[trigger] ci[k].0 != entries.last().0@ by {
                let i = choose|i: int| 0 <= i < keys(init).len() && keys(init)[i] == ci[k].0;
                assert(init[i] == entries[i]);
            }
        }
    }
}

/// The files of a `sources` object, skipping entries without a `content`
/// string.
pub fn collect_files(entries: &Vec<(String, Json)>) -> (r: Vec<SourceFile>)
    ensures
        files_view(r@) == content_files(entries@),
{
    let mut out: Vec<SourceFile> = Vec::new();
    let mut i: usize = 0;
    while i < entries.len()
        invariant
            0 <= i <= entries@.len(),
            files_view(out@) == content_files(entries@.subrange(0, i as int)),
        decreases entries@.len() - i,
    {
        let ghost before = out@;
        assert(entries@.subrange(0, i + 1).drop_last() =~= entries@.subrange(0, i as int));
        match get_str_member(&entries[i].1, "content") {
            Some(c) => {
                out.push(SourceFile { path: entries[i].0.clone(), content: c.clone() });
                assert(files_view(out@) =~= files_view(before).push((entries@[i as int].0@, c@)));
            },
            None => {},
        }
        i = i + 1;
    }
    assert(entries@.subrange(0, entries@.len() as int) =~= entries@);
    out
}

/// Decodes a `SourceCode` value into the files it stands for: an empty value
/// is refused, a value not starting with `{` is the single file `Single.sol`,
/// and any other is a JSON object (doubled braces collapsed first when it
/// holds `{{`) whose `sources` map paths to `content` strings.
pub fn decode_sources(s: &str) -> (r: Result<Vec<SourceFile>, ProtocolError>)
    ensures
        match r {
            Ok(v) => decoded(s@) == Some(files_view(v@)) && unique_paths(files_view(v@)),
            Err(e) => decoded(s@).is_none() && decode_error(s@, e),
        },
{
    let cs = chars_of(s);
    if cs.len() == 0 {
        return Err(ProtocolError::EmptySource);
    }
    if cs[0] != '{' {
        let mut v: Vec<SourceFile> = Vec::new();
        v.push(SourceFile { path: String::from_str("Single.sol"), content: String::from_str(s) });
        assert(files_view(v@) =~= seq![("Single.sol"@, s@)]);
        return Ok(v);
    }
    let text = if find_pair(&cs, '{') {
        let once = collapse_pairs(&cs, '{');
        let twice = collapse_pairs(&once, '}');
        string_of(&twice)
    } else {
        String::from_str(s)
    };
    let j = match parse_json(text.as_str()) {
        Ok(j) => j,
        Err(detail) => return Err(ProtocolError::MalformedSource { detail }),
    };
    match get_member(&j, "sources") {
        Some(Json::Object(entries)) => {
            proof {
                assert(keys_unique_to(j, 2));
                lemma_member_keys_unique(j, "sources"@, 1);
                lemma_content_paths(entries@);
            }
            Ok(collect_files(entries))
        },
        _ => Err(ProtocolError::NoSources),
    }
}

/// The files that an explorer's answer body yields; `None` when it yields
/// none.
pub open spec fn response_files(body: Seq<char>) -> Option<Seq<(Seq<char>, Seq<char>)>> {
    match parsed_json(body) {
        Err(_) => None,
        Ok(j) => if api_failure(j).is_some() {
            None
        } else {
            match source_code(j) {
                Ok(s) => decoded(s),
                Err(_) => None,
            }
        },
    }
}

/// `e` is the error that an answer body that yields no files is refused
/// with: the first check that fails names it.
pub open spec fn response_error(body: Seq<char>, e: ProtocolError) -> bool {
    match parsed_json(body) {
        Err(m) => not_json(e, m),
        Ok(j) => match api_failure(j) {
            Some(f) => reports(e, f),
            None => match source_code(j) {
                Ok(s) => decode_error(s, e),
                Err(x) => x == e,
            },
        },
    }
}

/// Everything an answer body yields after a successful request: the checked
/// answer, its `SourceCode`, and the decoded files.
pub fn sources_from_response(body: &str) -> (r: Result<Vec<SourceFile>, ProtocolError>)
    ensures
        match r {
            Ok(v) => response_files(body@) == Some(files_view(v@)) && unique_paths(files_view(v@)),
            Err(e) => response_files(body@).is_none() && response_error(body@, e),
        },
{
    let envelope = match check_response(body) {
        Ok(j) => j,
        Err(e) => return Err(e),
    };
    let code = match get_source_code(&envelope) {
        Ok(s) => s,
        Err(e) => return Err(e),
    };
    decode_sources(code.as_str())
}

} // verus!
