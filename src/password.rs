//! Choosing where a password comes from. Reading it is the caller's business; this
//! decides which source to read, and refuses ambiguous or missing choices.
use vstd::prelude::*;
use crate::errors::SecurityError;
use vstd::string::StringExecFns;

verus! {

/// Where the password is read from.
#[derive(Debug, Clone, Copy, PartialEq, Eq, Structural)]
pub enum PasswordSource {
    /// Given directly as a value.
    Given,
    /// The whole of standard input.
    Stdin,
    /// An interactive prompt.
    Prompt,
}

/// Number of sources chosen.
pub open spec fn sources_chosen(given: bool, from_stdin: bool, prompt: bool) -> int {
    (if given { 1int } else { 0int }) + (if from_stdin { 1int } else { 0int }) + (if prompt {
        1int
    } else {
        0int
    })
}

/// Picks the one password source chosen; none or several is an error. Confirmation is
/// possible only with the interactive prompt.
pub fn choose_password_source(given: bool, from_stdin: bool, prompt: bool, confirm: bool) -> (r:
    Result<PasswordSource, SecurityError>)
    ensures
        sources_chosen(given, from_stdin, prompt) != 1 ==> r matches Err(
            SecurityError::InvalidParams(_),
        ),
        sources_chosen(given, from_stdin, prompt) == 1 && confirm && !prompt ==> r matches Err(
            SecurityError::InvalidParams(_),
        ),
        sources_chosen(given, from_stdin, prompt) == 1 && (!confirm || prompt) ==> r == Ok::<
            PasswordSource,
            SecurityError,
        >(
            if given {
                PasswordSource::Given
            } else if from_stdin {
                PasswordSource::Stdin
            } else {
                PasswordSource::Prompt
            },
        ),
{
    let count: u8 = (if given { 1u8 } else { 0u8 }) + (if from_stdin { 1u8 } else { 0u8 }) + (
    if prompt {
        1u8
    } else {
        0u8
    });
    if count == 0 {
        return Err(
            SecurityError::InvalidParams(
                String::from_str(
                    "password is required: provide --password or --password-stdin or --password-prompt",
                ),
            ),
        );
    }
    if count > 1 {
        return Err(
            SecurityError::InvalidParams(
                String::from_str(
                    "conflicting password sources: use only one of --password/--password-stdin/--password-prompt",
                ),
            ),
        );
    }
    if confirm && !prompt {
        return Err(
            SecurityError::InvalidParams(
                String::from_str("--password-confirm requires --password-prompt"),
            ),
        );
    }
    if given {
        Ok(PasswordSource::Given)
    } else if from_stdin {
        Ok(PasswordSource::Stdin)
    } else {
        Ok(PasswordSource::Prompt)
    }
}

/// Length of `s` once every trailing `\r` and `\n` is dropped.
pub open spec fn trimmed_len(s: Seq<u8>) -> nat
    decreases s.len(),
{
    if s.len() > 0 && (s.last() == 13u8 || s.last() == 10u8) {
        trimmed_len(s.drop_last())
    } else {
        s.len()
    }
}

/// The bytes of `line` without its trailing `\r` and `\n` characters.
pub fn trim_line_end(line: &[u8]) -> (r: Vec<u8>)
    ensures
        r@ == line@.subrange(0, trimmed_len(line@) as int),
{
    let mut end = line.len();
    assert(line@.subrange(0, end as int) =~= line@);
    while end > 0 && (line[end - 1] == 13u8 || line[end - 1] == 10u8)
        invariant
            end <= line@.len(),
            trimmed_len(line@.subrange(0, end as int)) == trimmed_len(line@),
        decreases end,
    {
        assert(line@.subrange(0, end as int).drop_last() =~= line@.subrange(0, end - 1));
        end = end - 1;
    }
    assert(trimmed_len(line@.subrange(0, end as int)) == end);
    let mut out: Vec<u8> = Vec::new();
    out.extend_from_slice(&line[0..end]);
    out
}

} // verus!
