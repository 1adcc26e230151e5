//! What the storage layer lets into columns that people read: scheduler error
//! codes, refresh failure reasons and tenant mismatch reports.
use vstd::prelude::*;

use crate::audit_outbox_payload::{
    byte_len, contains_sensitive_audit_outbox_marker, sensitive_marker_spec,
};
use crate::error::{PgRepositoryResult, PostgresRepositoryError};
use crate::text::{
    ascii_lower_seq, chars_contain_str, chars_of, contains_run, is_ascii_digit, is_ascii_lower,
    is_control, is_control_char, is_unicode_whitespace, is_whitespace_char, string_from_chars,
    string_of,
};

verus! {

pub const REDACTED_TENANT_ACTUAL: &'static str = "<redacted>";

pub const REDACTED_REFRESH_ERROR: &'static str = "<redacted refresh error>";

pub const MAX_REFRESH_ERROR_CHARS: usize = 256;

pub const MAX_SCHEDULER_ERROR_CODE_LEN: usize = 64;

/// A character a scheduler error code may hold.
pub open spec fn scheduler_code_char(c: char) -> bool {
    is_ascii_lower(c) || is_ascii_digit(c) || c == '_' || c == ':' || c == '.' || c == '-'
}

/// A scheduler error code names a credential, an encrypted blob or a
/// fingerprint.
pub open spec fn scheduler_code_sensitive(s: Seq<char>) -> bool {
    let lowered = ascii_lower_seq(s);
    ||| contains_run(lowered, "access token"@)
    ||| contains_run(lowered, "access_token"@)
    ||| contains_run(lowered, "refresh token"@)
    ||| contains_run(lowered, "refresh_token"@)
    ||| contains_run(lowered, "authorization"@)
    ||| contains_run(lowered, "bearer"@)
    ||| contains_run(lowered, "client_secret"@)
    ||| contains_run(lowered, "authorization_code"@)
    ||| contains_run(lowered, "oauth_grant"@)
    ||| contains_run(lowered, "fingerprint"@)
    ||| contains_run(lowered, "encrypted"@)
}

/// A code the scheduler may store: 1 to 64 bytes of lower-case letters,
/// digits and `_ : . -`, naming nothing sensitive.
pub open spec fn scheduler_code_safe(s: Seq<char>) -> bool {
    &&& s.len() > 0
    &&& byte_len(s) <= 64
    &&& forall|i: int| 0 <= i < s.len() ==> scheduler_code_char(#[trigger] s[i])
    &&& !scheduler_code_sensitive(s)
}

fn is_scheduler_code_char(c: char) -> (r: bool)
    ensures
        r == scheduler_code_char(c),
{
    ('a' <= c && c <= 'z') || ('0' <= c && c <= '9') || c == '_' || c == ':' || c == '.' || c
        == '-'
}

/// Accepts exactly the codes the scheduler may store.
pub fn ensure_scheduler_safe_error_code(value: &str) -> (r: PgRepositoryResult<()>)
    ensures
        r is Ok <==> scheduler_code_safe(value@),
        r matches Err(error) ==> error is UnsafeSchedulerJobErrorCode,
{
    let cs = chars_of(value);
    let mut valid_shape = cs.len() > 0 && value.len() <= MAX_SCHEDULER_ERROR_CODE_LEN;
    let mut i: usize = 0;
    while i < cs.len()
        invariant
            cs@ == value@,
            i <= cs@.len(),
            valid_shape == (cs@.len() > 0 && byte_len(value@) <= 64 && forall|k: int|
                0 <= k < i ==> scheduler_code_char(#[trigger] cs@[k])),
        decreases cs@.len() - i,
    {
        if !is_scheduler_code_char(cs[i]) {
            valid_shape = false;
        }
        i = i + 1;
    }
    if !valid_shape {
        return Err(PostgresRepositoryError::UnsafeSchedulerJobErrorCode);
    }
    let lowered = crate::text::ascii_lowercase_chars(value);
    let looks_sensitive = chars_contain_str(&lowered, "access token") || chars_contain_str(
        &lowered,
        "access_token",
    ) || chars_contain_str(&lowered, "refresh token") || chars_contain_str(
        &lowered,
        "refresh_token",
    ) || chars_contain_str(&lowered, "authorization") || chars_contain_str(&lowered, "bearer")
        || chars_contain_str(&lowered, "client_secret") || chars_contain_str(
        &lowered,
        "authorization_code",
    ) || chars_contain_str(&lowered, "oauth_grant") || chars_contain_str(&lowered, "fingerprint")
        || chars_contain_str(&lowered, "encrypted");
    if looks_sensitive {
        return Err(PostgresRepositoryError::UnsafeSchedulerJobErrorCode);
    }
    Ok(())
}

/// Control characters become spaces.
pub open spec fn controls_to_spaces(s: Seq<char>) -> Seq<char> {
    Seq::new(s.len(), |i: int| if is_control_char(s[i]) { ' ' } else { s[i] })
}

/// `s` without its leading white space.
pub open spec fn trim_start(s: Seq<char>) -> Seq<char>
    decreases s.len(),
{
    if s.len() > 0 && is_unicode_whitespace(s[0]) {
        trim_start(s.drop_first())
    } else {
        s
    }
}

/// `s` without its trailing white space.
pub open spec fn trim_end(s: Seq<char>) -> Seq<char>
    decreases s.len(),
{
    if s.len() > 0 && is_unicode_whitespace(s.last()) {
        trim_end(s.drop_last())
    } else {
        s
    }
}

/// `str::trim`.
pub open spec fn trim(s: Seq<char>) -> Seq<char> {
    trim_end(trim_start(s))
}

/// At most the first `n` characters of `s`.
pub open spec fn take_chars(s: Seq<char>, n: nat) -> Seq<char> {
    if s.len() <= n {
        s
    } else {
        s.take(n as int)
    }
}

/// The reason stored for a failed refresh: a fixed placeholder when the text
/// names anything sensitive, else the text with control characters turned
/// into spaces, trimmed, and cut to 256 characters.
pub open spec fn sanitized_refresh_error(s: Seq<char>) -> Seq<char> {
    if sensitive_marker_spec(s) {
        "<redacted refresh error>"@
    } else {
        take_chars(trim(controls_to_spaces(s)), 256)
    }
}

proof fn lemma_trim_start_suffix(s: Seq<char>, i: int)
    requires
        0 <= i <= s.len(),
        forall|k: int| 0 <= k < i ==> is_unicode_whitespace(#[trigger] s[k]),
    ensures
        trim_start(s) == trim_start(s.skip(i)),
    decreases i,
{
    if i > 0 {
        assert(s.drop_first().skip(i - 1) =~= s.skip(i));
        lemma_trim_start_suffix(s.drop_first(), i - 1);
    } else {
        assert(s.skip(0) =~= s);
    }
}

proof fn lemma_trim_end_prefix(s: Seq<char>, j: int)
    requires
        0 <= j <= s.len(),
        forall|k: int| j <= k < s.len() ==> is_unicode_whitespace(#[trigger] s[k]),
    ensures
        trim_end(s) == trim_end(s.take(j)),
    decreases s.len() - j,
{
    if j < s.len() {
        assert(s.drop_last().take(j) =~= s.take(j));
        lemma_trim_end_prefix(s.drop_last(), j);
    } else {
        assert(s.take(j) =~= s);
    }
}

pub open spec fn free_of_controls(s: Seq<char>) -> bool {
    forall|i: int| 0 <= i < s.len() ==> !is_control_char(#[trigger] s[i])
}

proof fn lemma_trim_start_keeps_shape(s: Seq<char>)
    requires
        free_of_controls(s),
    ensures
        free_of_controls(trim_start(s)),
        trim_start(s).len() <= s.len(),
        trim_start(s).len() > 0 ==> !is_unicode_whitespace(trim_start(s)[0]),
    decreases s.len(),
{
    if s.len() > 0 && is_unicode_whitespace(s[0]) {
        assert forall|i: int| 0 <= i < s.drop_first().len() implies !is_control_char(
            #[trigger] s.drop_first()[i],
        ) by {
            assert(s.drop_first()[i] == s[i + 1]);
        }
        lemma_trim_start_keeps_shape(s.drop_first());
    }
}

proof fn lemma_trim_end_keeps_shape(s: Seq<char>)
    requires
        free_of_controls(s),
        s.len() > 0 ==> !is_unicode_whitespace(s[0]),
    ensures
        free_of_controls(trim_end(s)),
        trim_end(s).len() <= s.len(),
        trim_end(s).len() > 0 ==> trim_end(s)[0] == s[0],
    decreases s.len(),
{
    if s.len() > 0 && is_unicode_whitespace(s.last()) {
        let d = s.drop_last();
        assert forall|i: int| 0 <= i < d.len() implies !is_control_char(#[trigger] d[i]) by {
            assert(d[i] == s[i]);
        }
        if d.len() > 0 {
            assert(d[0] == s[0]);
        }
        lemma_trim_end_keeps_shape(d);
    }
}

/// What a failed refresh stores is at most 256 characters long, holds no
/// control character, and does not start with white space.
pub proof fn lemma_sanitized_refresh_error_shape(s: Seq<char>)
    ensures
        sanitized_refresh_error(s).len() <= 256,
        free_of_controls(sanitized_refresh_error(s)),
        sanitized_refresh_error(s).len() > 0 ==> !is_unicode_whitespace(
            sanitized_refresh_error(s)[0],
        ),
{
    if sensitive_marker_spec(s) {
        reveal_strlit("<redacted refresh error>");
        let p = "<redacted refresh error>"@;
        assert(p[0] == '<');
        assert forall|i: int| 0 <= i < p.len() implies !is_control_char(#[trigger] p[i]) by {
            reveal_strlit("<redacted refresh error>");
        }
    } else {
        let spaced = controls_to_spaces(s);
        assert forall|i: int| 0 <= i < spaced.len() implies !is_control_char(#[trigger] spaced[i]) by {
            assert(!is_control_char(' '));
        }
        lemma_trim_start_keeps_shape(spaced);
        let started = trim_start(spaced);
        lemma_trim_end_keeps_shape(started);
        let t = trim_end(started);
        let out = take_chars(t, 256);
        assert forall|i: int| 0 <= i < out.len() implies !is_control_char(#[trigger] out[i]) by {
            assert(out[i] == t[i]);
        }
        if out.len() > 0 {
            assert(out[0] == t[0]);
        }
    }
}

/// The characters of `v` between its first and last non-white-space ones.
fn trimmed(v: &Vec<char>) -> (r: Vec<char>)
    ensures
        r@ == trim(v@),
{
    let mut start: usize = 0;
    while start < v.len() && is_whitespace_char(v[start])
        invariant
            start <= v@.len(),
            forall|k: int| 0 <= k < start ==> is_unicode_whitespace(#[trigger] v@[k]),
        decreases v@.len() - start,
    {
        start = start + 1;
    }
    proof {
        lemma_trim_start_suffix(v@, start as int);
        if start < v@.len() {
            assert(v@.skip(start as int)[0] == v@[start as int]);
        }
    }
    let ghost rest = v@.skip(start as int);
    let mut end: usize = v.len();
    while end > start && is_whitespace_char(v[end - 1])
        invariant
            start <= end <= v@.len(),
            rest == v@.skip(start as int),
            forall|k: int| end <= k < v@.len() ==> is_unicode_whitespace(#[trigger] v@[k]),
        decreases end - start,
    {
        end = end - 1;
    }
    proof {
        assert forall|k: int|
            (end - start) <= k < rest.len() implies is_unicode_whitespace(#[trigger] rest[k]) by {
            assert(rest[k] == v@[k + start]);
        }
        lemma_trim_end_prefix(rest, end - start);
        if end > start {
            assert(rest.take(end - start).last() == v@[end - 1]);
        }
    }
    let mut out: Vec<char> = Vec::new();
    let mut i: usize = start;
    while i < end
        invariant
            start <= i <= end <= v@.len(),
            out@ =~= v@.subrange(start as int, i as int),
        decreases end - i,
    {
        out.push(v[i]);
        i = i + 1;
    }
    proof {
        assert(rest.take(end - start) =~= v@.subrange(start as int, end as int));
        if start < v@.len() {
            assert(!is_unicode_whitespace(rest[0]));
        }
    }
    out
}

/// What a failed refresh may store as its reason.
pub fn sanitize_refresh_error_for_storage(error: &str) -> (r: String)
    ensures
        r@ == sanitized_refresh_error(error@),
{
    if contains_sensitive_audit_outbox_marker(error) {
        return string_of(REDACTED_REFRESH_ERROR);
    }
    let cs = chars_of(error);
    let mut spaced: Vec<char> = Vec::new();
    let mut i: usize = 0;
    while i < cs.len()
        invariant
            cs@ == error@,
            i <= cs@.len(),
            spaced@ =~= controls_to_spaces(cs@).take(i as int),
        decreases cs@.len() - i,
    {
        let c = cs[i];
        if is_control(c) {
            spaced.push(' ');
        } else {
            spaced.push(c);
        }
        i = i + 1;
    }
    proof {
        assert(controls_to_spaces(cs@).take(cs@.len() as int) =~= controls_to_spaces(cs@));
    }
    let t = trimmed(&spaced);
    let mut out: Vec<char> = Vec::new();
    let mut k: usize = 0;
    while k < t.len() && k < MAX_REFRESH_ERROR_CHARS
        invariant
            k <= t@.len(),
            k <= 256,
            out@ =~= t@.take(k as int),
        decreases t@.len() - k,
    {
        out.push(t[k]);
        k = k + 1;
    }
    proof {
        if t@.len() <= 256 {
            assert(t@.take(k as int) =~= t@);
        }
    }
    string_from_chars(&out)
}

/// A tenant mismatch for a row that exists under another tenant; the other
/// tenant is never named.
pub fn redacted_tenant_mismatch(expected_tenant_id: &str) -> (r: PostgresRepositoryError)
    ensures
        r matches PostgresRepositoryError::TenantMismatch { field, expected, actual } && field@
            == "tenant_id"@ && expected@ == expected_tenant_id@ && actual@ == "<redacted>"@,
{
    PostgresRepositoryError::TenantMismatch {
        field: "tenant_id",
        expected: string_of(expected_tenant_id),
        actual: string_of(REDACTED_TENANT_ACTUAL),
    }
}

/// No scheduler error code that names a credential, an encrypted blob or a
/// fingerprint is stored: a code whose ASCII lower-case form contains any of
/// these markers is refused, whatever its shape.
pub proof fn lemma_sensitive_scheduler_codes_are_refused(s: Seq<char>)
    ensures
        contains_run(ascii_lower_seq(s), "access token"@) ==> !scheduler_code_safe(s),
        contains_run(ascii_lower_seq(s), "access_token"@) ==> !scheduler_code_safe(s),
        contains_run(ascii_lower_seq(s), "refresh token"@) ==> !scheduler_code_safe(s),
        contains_run(ascii_lower_seq(s), "refresh_token"@) ==> !scheduler_code_safe(s),
        contains_run(ascii_lower_seq(s), "authorization"@) ==> !scheduler_code_safe(s),
        contains_run(ascii_lower_seq(s), "bearer"@) ==> !scheduler_code_safe(s),
        contains_run(ascii_lower_seq(s), "client_secret"@) ==> !scheduler_code_safe(s),
        contains_run(ascii_lower_seq(s), "authorization_code"@) ==> !scheduler_code_safe(s),
        contains_run(ascii_lower_seq(s), "oauth_grant"@) ==> !scheduler_code_safe(s),
        contains_run(ascii_lower_seq(s), "fingerprint"@) ==> !scheduler_code_safe(s),
        contains_run(ascii_lower_seq(s), "encrypted"@) ==> !scheduler_code_safe(s),
{
}

} // verus!
