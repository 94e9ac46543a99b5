//! The rules for what the operator types: how a line is cut down to the
//! entry it carries, which answers decline, and which names and passwords
//! are within policy.

use vstd::prelude::*;
use vstd::string::StrSliceExecFns;

use crate::hasher::{hashable, HASHABLE_MAX};
use crate::text::bytes_of;

verus! {

/// The shortest user name, in characters.
pub const USERNAME_MIN: usize = 4;

/// The longest user name, in characters.
pub const USERNAME_MAX: usize = 20;

/// The shortest password, in characters.
pub const PASSWORD_MIN: usize = 12;

/// The longest password, in characters.
pub const PASSWORD_MAX: usize = 72;

/// Whether a character is white space: whether it has the Unicode property
/// White_Space, which is what `str::trim_end` and `char::is_whitespace` go
/// by.
pub open spec fn white_space(c: char) -> bool {
    ||| 0x0009 <= c as u32 <= 0x000d
    ||| c as u32 == 0x0020
    ||| c as u32 == 0x0085
    ||| c as u32 == 0x00a0
    ||| c as u32 == 0x1680
    ||| 0x2000 <= c as u32 <= 0x200a
    ||| c as u32 == 0x2028
    ||| c as u32 == 0x2029
    ||| c as u32 == 0x202f
    ||| c as u32 == 0x205f
    ||| c as u32 == 0x3000
}

/// `str::trim_end`: the result is the line without its trailing white
/// space, where white space is every character with the Unicode property
/// White_Space.
#[verifier::external_body]
fn trim_end(line: &str) -> (rest: &str)
    ensures
        rest@.len() <= line@.len(),
        rest@ == line@.take(rest@.len() as int),
        forall|i: int| rest@.len() <= i < line@.len() ==> white_space(#[trigger] line@[i]),
        rest@.len() > 0 ==> !white_space(rest@.last()),
{
    line.trim_end()
}

/// `String::pop`: removes the last character, if there is one, and returns
/// it.
#[verifier::external_body]
fn pop(text: &mut String) -> (last: Option<char>)
    ensures
        old(text)@.len() == 0 ==> last is None && final(text)@ == old(text)@,
        old(text)@.len() > 0 ==> last == Some(old(text)@.last()) && final(text)@ == old(
            text,
        )@.drop_last(),
{
    text.pop()
}

/// A line without its trailing white space.
pub open spec fn stripped(line: Seq<char>) -> Seq<char>
    decreases line.len(),
{
    if line.len() > 0 && white_space(line.last()) {
        stripped(line.drop_last())
    } else {
        line
    }
}

/// A line without its last character, which is where a line that was typed
/// ends.
pub open spec fn chopped(line: Seq<char>) -> Seq<char> {
    if line.len() > 0 {
        line.drop_last()
    } else {
        line
    }
}

/// Whether a line is the answer no: a single `n` or `N`, white space after
/// it aside. Every other answer counts as yes.
pub open spec fn declines(line: Seq<char>) -> bool {
    stripped(line) == seq!['n'] || stripped(line) == seq!['N']
}

/// A user name within policy: 4 to 20 characters.
pub open spec fn valid_username(name: Seq<char>) -> bool {
    USERNAME_MIN <= name.len() <= USERNAME_MAX
}

/// A password within policy: 12 to 72 characters, and no more than the 72
/// bytes that the hasher takes. The two bounds differ only for passwords
/// with characters outside ASCII.
pub open spec fn valid_password(secret: Seq<char>) -> bool {
    &&& PASSWORD_MIN <= secret.len() <= PASSWORD_MAX
    &&& bytes_of(secret).len() <= HASHABLE_MAX
}

/// A text occupies at least one byte for each of its characters.
pub proof fn lemma_bytes_outnumber_characters(text: Seq<char>)
    ensures
        text.len() <= bytes_of(text).len(),
    decreases text.len(),
{
    if text.len() > 0 {
        lemma_bytes_outnumber_characters(text.drop_first());
    }
}

/// A password within policy is one that the hasher accepts.
pub proof fn lemma_valid_password_is_hashable(secret: Seq<char>)
    requires
        valid_password(secret),
    ensures
        hashable(bytes_of(secret)),
{
    lemma_bytes_outnumber_characters(secret);
}

/// A prefix of `line` that ends before white space only, and does not end in
/// white space itself, is the stripped line.
proof fn lemma_stripped_is_unique(line: Seq<char>, n: int)
    requires
        0 <= n <= line.len(),
        forall|i: int| n <= i < line.len() ==> white_space(#[trigger] line[i]),
        n > 0 ==> !white_space(line[n - 1]),
    ensures
        stripped(line) == line.take(n),
    decreases line.len(),
{
    if n == line.len() {
        assert(line.take(n) =~= line);
    } else {
        let shorter = line.drop_last();
        assert(white_space(line[line.len() - 1]));
        assert forall|i: int| n <= i < shorter.len() implies white_space(
            #[trigger] shorter[i],
        ) by {
            assert(shorter[i] == line[i]);
        }
        lemma_stripped_is_unique(shorter, n);
        assert(shorter.take(n) =~= line.take(n));
    }
}

/// Removes the trailing white space of a line.
pub fn strip(line: &str) -> (rest: &str)
    ensures
        rest@ == stripped(line@),
{
    let rest = trim_end(line);
    proof {
        lemma_stripped_is_unique(line@, rest@.len() as int);
    }
    rest
}

/// Removes the last character of a line, if it has one.
pub fn chop(line: String) -> (entry: String)
    ensures
        entry@ == chopped(line@),
{
    let mut entry = line;
    let _ = pop(&mut entry);
    entry
}

/// Whether an answer to a yes-or-no question is no.
pub fn is_decline(line: &str) -> (no: bool)
    ensures
        no == declines(line@),
{
    let answer = strip(line);
    if answer.unicode_len() == 1 {
        let c = answer.get_char(0);
        assert(answer@ =~= seq![c]);
        assert(seq!['n'][0] == 'n' && seq!['N'][0] == 'N');
        c == 'n' || c == 'N'
    } else {
        assert(seq!['n'].len() == 1 && seq!['N'].len() == 1);
        false
    }
}

/// Whether a user name is within policy.
pub fn is_valid_username(name: &str) -> (ok: bool)
    ensures
        ok == valid_username(name@),
{
    let n = name.unicode_len();
    USERNAME_MIN <= n && n <= USERNAME_MAX
}

/// Whether a password is within policy.
pub fn is_valid_password(secret: &str) -> (ok: bool)
    ensures
        ok == valid_password(secret@),
{
    let n = secret.unicode_len();
    PASSWORD_MIN <= n && n <= PASSWORD_MAX && secret.as_bytes().len() <= HASHABLE_MAX
}

} // verus!
