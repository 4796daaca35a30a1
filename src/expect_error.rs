//! Comparison of a declared error expectation with an observed error.
use vstd::prelude::*;
use vstd::string::*;

verus! {

/// What the verifier reads of an error that an operation produced.
#[derive(Clone, Debug)]
pub struct ObservedError {
    /// Whether the server reported the error.
    pub is_server_error: bool,
    /// The error's message field, if it has one.
    pub message: Option<String>,
    /// The numeric server error code, if any.
    pub code: Option<i32>,
    /// The server error code name, if any.
    pub code_name: Option<String>,
    /// The labels attached to the error.
    pub labels: Vec<String>,
    /// The error's debug representation, used in diagnostics.
    pub rendered: String,
}

/// A declared error expectation; every clause is optional.
#[derive(Clone, Debug)]
pub struct ExpectError {
    pub is_error: Option<bool>,
    pub is_client_error: Option<bool>,
    pub error_contains: Option<String>,
    pub error_code: Option<i32>,
    pub error_code_name: Option<String>,
    pub error_labels_contain: Option<Vec<String>>,
    pub error_labels_omit: Option<Vec<String>>,
    /// A partial expected result in its textual form; declared but not compared.
    pub expect_result: Option<String>,
}

/// The character sequences of a list of strings.
pub open spec fn texts(v: Seq<String>) -> Seq<Seq<char>> {
    v.map_values(|s: String| s@)
}

/// Whether `t` occurs in `s` as a contiguous run.
pub open spec fn contains_text(s: Seq<char>, t: Seq<char>) -> bool {
    exists|i: int| 0 <= i && i + t.len() <= s.len() && #[trigger] s.subrange(i, i + t.len()) == t
}

/// Decimal rendering of an integer, with a leading `-` when negative.
pub open spec fn decimal(n: int) -> Seq<char> {
    if n < 0 {
        seq!['-'] + digits((-n) as nat)
    } else {
        digits(n as nat)
    }
}

/// Decimal digits of a natural number, without leading zeros.
pub open spec fn digits(n: nat) -> Seq<char>
    decreases n,
{
    if n < 10 {
        seq![digit_char(n)]
    } else {
        digits(n / 10) + seq![digit_char(n % 10)]
    }
}

pub open spec fn digit_char(d: nat) -> char {
    if d == 0 { '0' } else if d == 1 { '1' } else if d == 2 { '2' } else if d == 3 { '3' }
    else if d == 4 { '4' } else if d == 5 { '5' } else if d == 6 { '6' } else if d == 7 { '7' }
    else if d == 8 { '8' } else { '9' }
}

/// The first label of `want` that `have` lacks.
pub open spec fn first_missing(want: Seq<Seq<char>>, have: Seq<Seq<char>>) -> Option<Seq<char>>
    decreases want.len(),
{
    if want.len() == 0 {
        None
    } else if !have.contains(want[0]) {
        Some(want[0])
    } else {
        first_missing(want.drop_first(), have)
    }
}

/// The first label of `want` that `have` holds.
pub open spec fn first_present(want: Seq<Seq<char>>, have: Seq<Seq<char>>) -> Option<Seq<char>>
    decreases want.len(),
{
    if want.len() == 0 {
        None
    } else if have.contains(want[0]) {
        Some(want[0])
    } else {
        first_present(want.drop_first(), have)
    }
}

/// The debug form of an optional code name.
pub open spec fn debug_code_name(n: Option<String>) -> Seq<char> {
    match n {
        Some(s) => "Some(\""@ + s@ + "\")"@,
        None => "None"@,
    }
}

/// The diagnostic for the first declared clause that the observed error
/// fails, in clause order; `None` when every declared clause holds.
pub open spec fn first_mismatch(x: ExpectError, e: ObservedError, d: Seq<char>) -> Option<Seq<char>> {
    if x.is_client_error is Some && x.is_client_error->0 != !e.is_server_error {
        Some(d + ": expected client error but got "@ + e.rendered@)
    } else if x.error_contains is Some && !(e.message is Some && contains_text(
        e.message->0@,
        x.error_contains->0@,
    )) {
        Some(d + ": \""@ + e.rendered@ + "\" should include message field"@)
    } else if x.error_code is Some && e.code is None {
        Some(
            d + ": "@ + e.rendered@ + " was expected to include code "@ + decimal(
                x.error_code->0 as int,
            ) + " but had no code"@,
        )
    } else if x.error_code is Some && e.code->0 != x.error_code->0 {
        Some(
            d + ": error code "@ + decimal(e.code->0 as int) + " ("@ + debug_code_name(e.code_name)
                + ") did not match expected error code "@ + decimal(x.error_code->0 as int) + " in "@
                + e.rendered@,
        )
    } else if x.error_code_name is Some && e.code_name is None {
        Some(
            d + ": "@ + e.rendered@ + " was expected to include code name \""@
                + x.error_code_name->0@ + "\" but had no code name"@,
        )
    } else if x.error_code_name is Some && e.code_name->0@ != x.error_code_name->0@ {
        Some(
            d + ": error code name \""@ + e.code_name->0@
                + "\" did not match expected error code name \""@ + x.error_code_name->0@
                + "\" in "@ + e.rendered@,
        )
    } else if x.error_labels_contain is Some && first_missing(
        texts(x.error_labels_contain->0@),
        texts(e.labels@),
    ) is Some {
        Some(
            d + ": expected "@ + e.rendered@ + " to contain label \""@ + first_missing(
                texts(x.error_labels_contain->0@),
                texts(e.labels@),
            )->0 + "\""@,
        )
    } else if x.error_labels_omit is Some && first_present(
        texts(x.error_labels_omit->0@),
        texts(e.labels@),
    ) is Some {
        Some(
            d + ": expected "@ + e.rendered@ + " to omit label \""@ + first_present(
                texts(x.error_labels_omit->0@),
                texts(e.labels@),
            )->0 + "\""@,
        )
    } else {
        None
    }
}

/// Relies on `str::contains` with a `&str` pattern: whether `t` occurs in `s`.
#[verifier::external_body]
fn text_contains(s: &str, t: &str) -> (r: bool)
    ensures
        r == contains_text(s@, t@),
{
    s.contains(t)
}

/// Relies on `i32`'s `ToString`: its decimal form.
#[verifier::external_body]
fn decimal_text(n: i32) -> (r: String)
    ensures
        r@ == decimal(n as int),
{
    n.to_string()
}

/// Whether `labels` holds `label`.
pub fn has_label(labels: &Vec<String>, label: &String) -> (r: bool)
    ensures
        r == texts(labels@).contains(label@),
{
    let mut j: usize = 0;
    while j < labels.len()
        invariant
            j <= labels.len(),
            forall|k: int| 0 <= k < j ==> labels@[k]@ != label@,
        decreases labels.len() - j,
    {
        if labels[j] == *label {
            assert(texts(labels@)[j as int] == label@);
            return true;
        }
        j = j + 1;
    }
    assert(!texts(labels@).contains(label@)) by {
        if texts(labels@).contains(label@) {
            let k = choose|k: int| 0 <= k < texts(labels@).len() && texts(labels@)[k] == label@;
            assert(labels@[k]@ == label@);
        }
    }
    false
}

/// The first of `want` that `have` lacks (`present == false`) or holds
/// (`present == true`), as an index into `want`.
pub(crate) fn first_label_index(want: &Vec<String>, have: &Vec<String>, present: bool) -> (r: Option<usize>)
    ensures
        present ==> match r {
            Some(i) => i < want.len() && first_present(texts(want@), texts(have@)) == Some(
                want@[i as int]@,
            ),
            None => first_present(texts(want@), texts(have@)) is None,
        },
        !present ==> match r {
            Some(i) => i < want.len() && first_missing(texts(want@), texts(have@)) == Some(
                want@[i as int]@,
            ),
            None => first_missing(texts(want@), texts(have@)) is None,
        },
{
    let mut i: usize = 0;
    assert(texts(want@).subrange(0, want@.len() as int) =~= texts(want@));
    while i < want.len()
        invariant
            i <= want.len(),
            present ==> first_present(texts(want@), texts(have@)) == first_present(
                texts(want@).subrange(i as int, want@.len() as int),
                texts(have@),
            ),
            !present ==> first_missing(texts(want@), texts(have@)) == first_missing(
                texts(want@).subrange(i as int, want@.len() as int),
                texts(have@),
            ),
        decreases want.len() - i,
    {
        let found = has_label(have, &want[i]);
        let ghost rest = texts(want@).subrange(i as int, want@.len() as int);
        assert(rest[0] == want@[i as int]@);
        assert(rest.drop_first() =~= texts(want@).subrange(i + 1, want@.len() as int));
        if found == present {
            return Some(i);
        }
        i = i + 1;
    }
    assert(texts(want@).subrange(i as int, want@.len() as int).len() == 0);
    None
}

proof fn lemma_first_present_found(want: Seq<Seq<char>>, have: Seq<Seq<char>>, label: Seq<char>)
    requires
        want.contains(label),
        have.contains(label),
    ensures
        first_present(want, have) is Some,
    decreases want.len(),
{
    if !have.contains(want[0]) {
        let k = choose|k: int| 0 <= k < want.len() && want[k] == label;
        assert(k != 0);
        assert(want.drop_first()[k - 1] == label);
        lemma_first_present_found(want.drop_first(), have, label);
    }
}

proof fn lemma_first_present_absent(want: Seq<Seq<char>>, have: Seq<Seq<char>>)
    requires
        forall|l: Seq<char>| want.contains(l) ==> !have.contains(l),
    ensures
        first_present(want, have) is None,
    decreases want.len(),
{
    if want.len() > 0 {
        assert(want.contains(want[0]));
        assert forall|l: Seq<char>| want.drop_first().contains(l) implies !have.contains(l) by {
            let k = choose|k: int| 0 <= k < want.drop_first().len() && want.drop_first()[k] == l;
            assert(want[k + 1] == l);
        }
        lemma_first_present_absent(want.drop_first(), have);
    }
}

/// An error that carries a label declared as forbidden fails verification,
/// whatever else the expectation declares.
pub proof fn forbidden_label_fails(x: ExpectError, e: ObservedError, d: Seq<char>, label: Seq<char>)
    requires
        x.error_labels_omit is Some,
        texts(x.error_labels_omit->0@).contains(label),
        texts(e.labels@).contains(label),
    ensures
        first_mismatch(x, e, d) is Some,
{
    lemma_first_present_found(texts(x.error_labels_omit->0@), texts(e.labels@), label);
}

/// When an error carries none of the forbidden labels, the forbidden-label
/// clause does not change the outcome: verification gives what it gives
/// without that clause.
pub proof fn absent_forbidden_labels_are_neutral(x: ExpectError, e: ObservedError, d: Seq<char>)
    requires
        x.error_labels_omit is Some,
        forall|l: Seq<char>|
            texts(x.error_labels_omit->0@).contains(l) ==> !texts(e.labels@).contains(l),
    ensures
        first_mismatch(x, e, d) == first_mismatch((ExpectError { error_labels_omit: None, ..x }), e, d),
{
    lemma_first_present_absent(texts(x.error_labels_omit->0@), texts(e.labels@));
}

proof fn lemma_embeds(m: Seq<char>, d: Seq<char>, p: Seq<char>, r: Seq<char>, t: Seq<char>)
    requires
        m =~= d + p + r + t,
    ensures
        m.len() >= d.len(),
        m.subrange(0, d.len() as int) == d,
        contains_text(m, r),
{
    assert(m.subrange(0, d.len() as int) =~= d);
    assert(m.subrange((d + p).len() as int, ((d + p).len() + r.len()) as int) =~= r);
}

/// Every diagnostic starts with the caller's label and holds the error's
/// debug form.
pub proof fn diagnostics_name_label_and_error(x: ExpectError, e: ObservedError, d: Seq<char>)
    ensures
        first_mismatch(x, e, d) matches Some(m) ==> m.len() >= d.len() && m.subrange(
            0,
            d.len() as int,
        ) == d && contains_text(m, e.rendered@),
{
    let r = e.rendered@;
    let none = Seq::<char>::empty();
    if let Some(m) = first_mismatch(x, e, d) {
        if x.is_client_error is Some && x.is_client_error->0 != !e.is_server_error {
            lemma_embeds(m, d, ": expected client error but got "@, r, none);
        } else if x.error_contains is Some && !(e.message is Some && contains_text(
            e.message->0@,
            x.error_contains->0@,
        )) {
            lemma_embeds(m, d, ": \""@, r, "\" should include message field"@);
        } else if x.error_code is Some && e.code is None {
            lemma_embeds(
                m,
                d,
                ": "@,
                r,
                " was expected to include code "@ + decimal(x.error_code->0 as int)
                    + " but had no code"@,
            );
        } else if x.error_code is Some && e.code->0 != x.error_code->0 {
            lemma_embeds(
                m,
                d,
                ": error code "@ + decimal(e.code->0 as int) + " ("@ + debug_code_name(e.code_name)
                    + ") did not match expected error code "@ + decimal(x.error_code->0 as int)
                    + " in "@,
                r,
                none,
            );
        } else if x.error_code_name is Some && e.code_name is None {
            lemma_embeds(
                m,
                d,
                ": "@,
                r,
                " was expected to include code name \""@ + x.error_code_name->0@
                    + "\" but had no code name"@,
            );
        } else if x.error_code_name is Some && e.code_name->0@ != x.error_code_name->0@ {
            lemma_embeds(
                m,
                d,
                ": error code name \""@ + e.code_name->0@
                    + "\" did not match expected error code name \""@ + x.error_code_name->0@
                    + "\" in "@,
                r,
                none,
            );
        } else if x.error_labels_contain is Some && first_missing(
            texts(x.error_labels_contain->0@),
            texts(e.labels@),
        ) is Some {
            lemma_embeds(
                m,
                d,
                ": expected "@,
                r,
                " to contain label \""@ + first_missing(
                    texts(x.error_labels_contain->0@),
                    texts(e.labels@),
                )->0 + "\""@,
            );
        } else {
            lemma_embeds(
                m,
                d,
                ": expected "@,
                r,
                " to omit label \""@ + first_present(
                    texts(x.error_labels_omit->0@),
                    texts(e.labels@),
                )->0 + "\""@,
            );
        }
    }
}

impl ExpectError {
    /// Checks the declared clauses against `error` in a fixed order and
    /// reports the first that fails, prefixed with `description`.
    pub fn verify_result(&self, error: &ObservedError, description: &str) -> (r: Result<(), String>)
        ensures
            r is Ok <==> first_mismatch(*self, *error, description@) is None,
            r matches Err(m) ==> first_mismatch(*self, *error, description@) == Some(m@),
    {
        let ghost d = description@;
        let mut out = String::from_str(description);
        if let Some(is_client_error) = self.is_client_error {
            if is_client_error != !error.is_server_error {
                out.append(": expected client error but got ");
                out.append(error.rendered.as_str());
                return Err(out);
            }
        }
        if let Some(error_contains) = &self.error_contains {
            let ok = match &error.message {
                Some(msg) => text_contains(msg.as_str(), error_contains.as_str()),
                None => false,
            };
            if !ok {
                out.append(": \"");
                out.append(error.rendered.as_str());
                out.append("\" should include message field");
                return Err(out);
            }
        }
        if let Some(error_code) = self.error_code {
            match error.code {
                Some(code) => {
                    if code != error_code {
                        out.append(": error code ");
                        out.append(decimal_text(code).as_str());
                        out.append(" (");
                        match &error.code_name {
                            Some(name) => {
                                out.append("Some(\"");
                                out.append(name.as_str());
                                out.append("\")");
                            },
                            None => {
                                out.append("None");
                            },
                        }
                        out.append(") did not match expected error code ");
                        out.append(decimal_text(error_code).as_str());
                        out.append(" in ");
                        out.append(error.rendered.as_str());
                        assert(out@ == d + ": error code "@ + decimal(code as int) + " ("@
                            + debug_code_name(error.code_name)
                            + ") did not match expected error code "@ + decimal(
                            error_code as int,
                        ) + " in "@ + error.rendered@);
                        return Err(out);
                    }
                },
                None => {
                    out.append(": ");
                    out.append(error.rendered.as_str());
                    out.append(" was expected to include code ");
                    out.append(decimal_text(error_code).as_str());
                    out.append(" but had no code");
                    return Err(out);
                },
            }
        }
        if let Some(expected_code_name) = &self.error_code_name {
            match &error.code_name {
                Some(name) => {
                    if !(*name == *expected_code_name) {
                        out.append(": error code name \"");
                        out.append(name.as_str());
                        out.append("\" did not match expected error code name \"");
                        out.append(expected_code_name.as_str());
                        out.append("\" in ");
                        out.append(error.rendered.as_str());
                        return Err(out);
                    }
                },
                None => {
                    out.append(": ");
                    out.append(error.rendered.as_str());
                    out.append(" was expected to include code name \"");
                    out.append(expected_code_name.as_str());
                    out.append("\" but had no code name");
                    return Err(out);
                },
            }
        }
        if let Some(error_labels_contain) = &self.error_labels_contain {
            if let Some(i) = first_label_index(error_labels_contain, &error.labels, false) {
                out.append(": expected ");
                out.append(error.rendered.as_str());
                out.append(" to contain label \"");
                out.append(error_labels_contain[i].as_str());
                out.append("\"");
                return Err(out);
            }
        }
        if let Some(error_labels_omit) = &self.error_labels_omit {
            if let Some(i) = first_label_index(error_labels_omit, &error.labels, true) {
                out.append(": expected ");
                out.append(error.rendered.as_str());
                out.append(" to omit label \"");
                out.append(error_labels_omit[i].as_str());
                out.append("\"");
                return Err(out);
            }
        }
        Ok(())
    }
}

} // verus!
