//! The JSON rendering of a job: the body of a successful dequeue
//! response. Strings are escaped as JSON demands; the object layout is
//! fixed, so the whole body is a pure function of the job.

use vstd::prelude::*;
use vstd::string::*;
use crate::job::Job;
use crate::text::{u64_dec, u64_to_dec, push_char, to_chars};

verus! {

/// A hexadecimal digit character, lower case.
pub open spec fn hex_char(d: nat) -> char
    recommends
        d < 16,
{
    if d < 10 {
        ((48 + d) as u8) as char
    } else {
        ((87 + d) as u8) as char
    }
}

/// The JSON escape of one character: the two-character escapes for the
/// quote, backslash and common controls, `\u00..` for the remaining
/// controls, and the character itself otherwise.
pub open spec fn esc_char(c: char) -> Seq<char> {
    if c == '"' {
        seq!['\\', '"']
    } else if c == '\\' {
        seq!['\\', '\\']
    } else if c == '\n' {
        seq!['\\', 'n']
    } else if c == '\r' {
        seq!['\\', 'r']
    } else if c == '\t' {
        seq!['\\', 't']
    } else if (c as u32) < 32 {
        seq!['\\', 'u', '0', '0', hex_char((c as u32 / 16) as nat), hex_char(
            (c as u32 % 16) as nat,
        )]
    } else {
        seq![c]
    }
}

/// The JSON escape of a string's characters.
pub open spec fn json_escaped(s: Seq<char>) -> Seq<char>
    decreases s.len(),
{
    if s.len() == 0 {
        Seq::empty()
    } else {
        esc_char(s[0]) + json_escaped(s.drop_first())
    }
}

/// A JSON string: the escaped text in quotes.
pub open spec fn json_str(s: Seq<char>) -> Seq<char> {
    seq!['"'] + json_escaped(s) + seq!['"']
}

/// Escape a string's characters for JSON.
fn escape_into(out: &mut String, s: &str)
    ensures
        final(out)@ == old(out)@ + json_escaped(s@),
{
    let chars = to_chars(s);
    let n = chars.len();
    let mut i: usize = 0;
    proof {
        assert(s@.skip(0) =~= s@);
        assert(old(out)@ + Seq::<char>::empty() =~= old(out)@);
    }
    while i < n
        invariant
            i <= n,
            n == s@.len(),
            chars@ == s@,
            old(out)@ + json_escaped(s@) == out@ + json_escaped(s@.skip(i as int)),
        decreases n - i,
    {
        let ghost rest = s@.skip(i as int);
        let ghost prev = out@;
        proof {
            assert(rest[0] == s@[i as int]);
            assert(rest.drop_first() =~= s@.skip(i + 1));
        }
        let c = chars[i];
        if c == '"' {
            push_char(out, '\\');
            push_char(out, '"');
        } else if c == '\\' {
            push_char(out, '\\');
            push_char(out, '\\');
        } else if c == '\n' {
            push_char(out, '\\');
            push_char(out, 'n');
        } else if c == '\r' {
            push_char(out, '\\');
            push_char(out, 'r');
        } else if c == '\t' {
            push_char(out, '\\');
            push_char(out, 't');
        } else if (c as u32) < 32 {
            let v = c as u32;
            let hi: u8 = (v / 16) as u8;
            let lo: u8 = (v % 16) as u8;
            let hi_c: char = if hi < 10 {
                (48u8 + hi) as char
            } else {
                (87u8 + hi) as char
            };
            let lo_c: char = if lo < 10 {
                (48u8 + lo) as char
            } else {
                (87u8 + lo) as char
            };
            push_char(out, '\\');
            push_char(out, 'u');
            push_char(out, '0');
            push_char(out, '0');
            push_char(out, hi_c);
            push_char(out, lo_c);
            assert(hi_c == hex_char((c as u32 / 16) as nat));
            assert(lo_c == hex_char((c as u32 % 16) as nat));
        } else {
            push_char(out, c);
        }
        proof {
            assert(json_escaped(rest) == esc_char(s@[i as int]) + json_escaped(s@.skip(i + 1)));
            assert(out@ =~= prev + esc_char(s@[i as int]));
            assert(out@ + json_escaped(s@.skip(i + 1)) =~= prev + json_escaped(rest));
        }
        i = i + 1;
    }
    proof {
        assert(s@.skip(n as int) =~= Seq::<char>::empty());
        assert(out@ + Seq::<char>::empty() =~= out@);
    }
}

/// Append a JSON string.
fn str_into(out: &mut String, s: &str)
    ensures
        final(out)@ == old(out)@ + json_str(s@),
{
    push_char(out, '"');
    escape_into(out, s);
    push_char(out, '"');
    proof {
        assert(old(out)@ + json_str(s@) =~= old(out)@.push('"') + json_escaped(s@) + seq!['"']);
        assert(out@ =~= old(out)@.push('"') + json_escaped(s@) + seq!['"']);
    }
}

/// A JSON array of strings, in order.
pub open spec fn json_str_array(items: Seq<Seq<char>>) -> Seq<char>
    decreases items.len(),
{
    if items.len() == 0 {
        seq!['[', ']']
    } else {
        seq!['['] + json_str_array_items(items) + seq![']']
    }
}

/// The comma-separated items of a JSON string array.
pub open spec fn json_str_array_items(items: Seq<Seq<char>>) -> Seq<char>
    decreases items.len(),
{
    if items.len() == 0 {
        Seq::empty()
    } else if items.len() == 1 {
        json_str(items[0])
    } else {
        json_str(items[0]) + seq![','] + json_str_array_items(items.drop_first())
    }
}

fn array_items_into(out: &mut String, items: &Vec<String>, i: usize)
    requires
        i < items@.len(),
    ensures
        final(out)@ == old(out)@ + json_str_array_items(items.deep_view().skip(i as int)),
    decreases items@.len() - i,
{
    let ghost rest = items.deep_view().skip(i as int);
    proof {
        assert(rest[0] == items.deep_view()[i as int]);
        assert(rest.drop_first() =~= items.deep_view().skip(i + 1));
    }
    str_into(out, items[i].as_str());
    if items.len() - i > 1 {
        push_char(out, ',');
        array_items_into(out, items, i + 1);
    }
}

/// Append a JSON array of strings.
fn array_into(out: &mut String, items: &Vec<String>)
    ensures
        final(out)@ == old(out)@ + json_str_array(items.deep_view()),
{
    push_char(out, '[');
    if items.len() > 0 {
        proof {
            assert(items.deep_view().skip(0) =~= items.deep_view());
        }
        array_items_into(out, items, 0);
    }
    push_char(out, ']');
}

/// The JSON rendering of a job, as the dequeue endpoint answers it.
pub open spec fn spec_job_json(job: Job) -> Seq<char> {
    "{\"command\":"@ + json_str_array(job.command.deep_view()) + ",\"repository\":{\"id\":"@
        + u64_dec(job.repository.id as nat) + ",\"name\":"@ + json_str(job.repository.name@)
        + ",\"url\":"@ + json_str(job.repository.url@) + ",\"owner\":{\"login\":"@ + json_str(
        job.repository.owner.login@,
    ) + "},\"clone_url\":"@ + json_str(job.repository.clone_url@) + "},\"issue\":{\"number\":"@
        + u64_dec(job.issue.number as nat) + "}}"@
}

/// Render a job as the JSON body of a dequeue response.
pub fn job_to_json(job: &Job) -> (r: String)
    ensures
        r@ == spec_job_json(*job),
{
    let mut out = "{\"command\":".to_owned();
    array_into(&mut out, &job.command);
    out.append(",\"repository\":{\"id\":");
    let id = u64_to_dec(job.repository.id);
    out.append(id.as_str());
    out.append(",\"name\":");
    str_into(&mut out, job.repository.name.as_str());
    out.append(",\"url\":");
    str_into(&mut out, job.repository.url.as_str());
    out.append(",\"owner\":{\"login\":");
    str_into(&mut out, job.repository.owner.login.as_str());
    out.append("},\"clone_url\":");
    str_into(&mut out, job.repository.clone_url.as_str());
    out.append("},\"issue\":{\"number\":");
    let num = u64_to_dec(job.issue.number);
    out.append(num.as_str());
    out.append("}}");
    out
}

} // verus!
