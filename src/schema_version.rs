//! Normalization of dotted schema-version strings to three components.
use vstd::prelude::*;
use vstd::string::*;

verus! {

/// A semantic version reduced to its three numeric components.
#[derive(Clone, Copy, Debug, PartialEq, Eq, Structural)]
pub struct SchemaVersion {
    pub major: u64,
    pub minor: u64,
    pub patch: u64,
}

/// A schema document that does not conform; carries the parser's message.
#[derive(Clone, Debug)]
pub struct SchemaError {
    pub message: String,
}

/// Number of occurrences of `c` in `s`.
pub open spec fn count_char(s: Seq<char>, c: char) -> nat
    decreases s.len(),
{
    if s.len() == 0 {
        0
    } else {
        count_char(s.drop_last(), c) + if s.last() == c {
            1nat
        } else {
            0nat
        }
    }
}

/// Number of dot-separated components of a version string.
pub open spec fn component_count(s: Seq<char>) -> nat {
    count_char(s, '.') + 1
}

/// The version text padded to three components: `.0.0` after a lone major
/// component, `.0` after major.minor, and unchanged otherwise.
pub open spec fn padded_version_text(s: Seq<char>) -> Seq<char> {
    if component_count(s) == 1 {
        s + ".0.0"@
    } else if component_count(s) == 2 {
        s + ".0"@
    } else {
        s
    }
}

/// What strict semantic-version parsing yields for a text: the three numeric
/// components, or the parser's message when the text is not a valid version.
pub uninterp spec fn semver_parse(text: Seq<char>) -> Result<(u64, u64, u64), Seq<char>>;

/// Relies on `semver::Version::parse`: strict parsing of `major.minor.patch`
/// with optional pre-release and build parts, which are not kept here; on
/// failure, the error's `Display` text.
#[verifier::external_body]
fn parse_semver(text: &str) -> (r: Result<SchemaVersion, String>)
    ensures
        r is Ok <==> semver_parse(text@) is Ok,
        r matches Ok(v) ==> semver_parse(text@)->Ok_0 == (v.major, v.minor, v.patch),
        r matches Err(m) ==> semver_parse(text@)->Err_0 == m@,
{
    match semver::Version::parse(text) {
        Ok(v) => Ok(SchemaVersion { major: v.major, minor: v.minor, patch: v.patch }),
        Err(e) => Err(e.to_string()),
    }
}

/// Counts the occurrences of `c` in `s`.
pub fn count_of(s: &str, c: char) -> (r: usize)
    ensures
        r == count_char(s@, c),
{
    let n = s.unicode_len();
    let mut count: usize = 0;
    let mut i: usize = 0;
    while i < n
        invariant
            n == s@.len(),
            i <= n,
            count == count_char(s@.subrange(0, i as int), c),
            count <= i,
        decreases n - i,
    {
        let d = s.get_char(i);
        assert(s@.subrange(0, i + 1).drop_last() =~= s@.subrange(0, i as int));
        if d == c {
            count = count + 1;
        }
        i = i + 1;
    }
    assert(s@.subrange(0, n as int) =~= s@);
    count
}

/// Pads a dotted version string with one or two zero components so that it
/// has three.
pub fn pad_schema_version(text: &str) -> (r: String)
    ensures
        r@ == padded_version_text(text@),
        component_count(text@) == 1 ==> r@ == text@ + ".0.0"@,
        component_count(text@) == 2 ==> r@ == text@ + ".0"@,
        component_count(text@) >= 3 ==> r@ == text@,
{
    let dots = count_of(text, '.');
    let mut out = String::from_str(text);
    if dots == 0 {
        out.append(".0.0");
    } else if dots == 1 {
        out.append(".0");
    }
    out
}

/// Normalizes a schema version string: pads it to three components, then
/// parses it strictly. Fails with the parser's message when the padded text
/// is not a valid semantic version.
pub fn normalize_schema_version(text: &str) -> (r: Result<SchemaVersion, SchemaError>)
    ensures
        r is Ok <==> semver_parse(padded_version_text(text@)) is Ok,
        r matches Ok(v) ==> semver_parse(padded_version_text(text@))->Ok_0 == (
            v.major,
            v.minor,
            v.patch,
        ),
        r matches Err(e) ==> semver_parse(padded_version_text(text@))->Err_0 == e.message@,
{
    let padded = pad_schema_version(text);
    match parse_semver(padded.as_str()) {
        Ok(v) => Ok(v),
        Err(message) => Err(SchemaError { message }),
    }
}

} // verus!
