//! The sigil marker line that embeds a spec's content hash in a lockfile.
//!
//! Encoding produces the fixed-prefix marker line, terminated by a single
//! newline, that a freeze writes as the first line of a lockfile.  Decoding
//! scans every line of a document for the marker prefix and returns the
//! first match's trailer, trimmed; a document with no marker line has no
//! hash.

use vstd::prelude::*;
use vstd::string::StrSliceExecFns;
use vstd::string::StringExecFns;

use crate::errors::LockError;
use crate::strutil::{
    is_space, split_on_nl, starts_with, str_eq, trim, trim_spec, split_lines,
    lemma_first_ix_is, lemma_trim_of_clean,
};

verus! {

/// The marker prefix of a sigil line.
pub open spec fn sigil_seq() -> Seq<char> {
    "# ENVHASH:"@
}

/// The marker prefix: ten characters, none of them a newline, the first a
/// `#`.
pub proof fn lemma_sigil_facts()
    ensures
        sigil_seq().len() == 10,
        forall|j: int| 0 <= j < 10 ==> #[trigger] sigil_seq()[j] != '\n',
{
    reveal_strlit("# ENVHASH:");
    assert forall|j: int| 0 <= j < 10 implies #[trigger] sigil_seq()[j] != '\n' by {
        if j == 0 {
            assert(sigil_seq()[0] == '#');
        } else if j == 1 {
            assert(sigil_seq()[1] == ' ');
        } else if j == 2 {
            assert(sigil_seq()[2] == 'E');
        } else if j == 3 {
            assert(sigil_seq()[3] == 'N');
        } else if j == 4 {
            assert(sigil_seq()[4] == 'V');
        } else if j == 5 {
            assert(sigil_seq()[5] == 'H');
        } else if j == 6 {
            assert(sigil_seq()[6] == 'A');
        } else if j == 7 {
            assert(sigil_seq()[7] == 'S');
        } else if j == 8 {
            assert(sigil_seq()[8] == 'H');
        } else {
            assert(sigil_seq()[9] == ':');
        }
    }
}

/// A line that carries the sigil marker.
pub open spec fn is_sigil_line(line: Seq<char>) -> bool {
    line.len() >= sigil_seq().len() && line.take(sigil_seq().len() as int) == sigil_seq()
}

/// The hash a sigil line carries: its trailer after the marker, trimmed.
pub open spec fn sigil_payload(line: Seq<char>) -> Seq<char> {
    trim_spec(line.skip(sigil_seq().len() as int))
}

/// The hash the first sigil line of the given lines carries, if any line
/// carries one.
pub open spec fn decode_lines(lines: Seq<Seq<char>>) -> Option<Seq<char>>
    decreases lines.len(),
{
    if lines.len() == 0 {
        None
    } else if is_sigil_line(lines[0]) {
        Some(sigil_payload(lines[0]))
    } else {
        decode_lines(lines.skip(1))
    }
}

/// The hash embedded in a document, if any of its lines is a sigil line.
pub open spec fn spec_decode_sigil(contents: Seq<char>) -> Option<Seq<char>> {
    decode_lines(split_on_nl(contents))
}

/// The sigil line for a hash: marker, space, hash, newline.
pub open spec fn spec_encode_sigil(hash: Seq<char>) -> Seq<char> {
    sigil_seq() + seq![' '] + hash + seq!['\n']
}

/// Produces the sigil line for a hash.
pub fn encode_sigil(hash: &str) -> (r: String)
    ensures
        r@ == spec_encode_sigil(hash@),
{
    let mut r = "# ENVHASH:".to_owned();
    r.append(" ");
    r.append(hash);
    r.append("\n");
    proof {
        reveal_strlit(" ");
        reveal_strlit("\n");
        assert(" "@ =~= seq![' ']);
        assert("\n"@ =~= seq!['\n']);
    }
    r
}

/// Scans a document's lines for the sigil marker and returns the first
/// match's trimmed trailer; fails with `NoSigil` exactly when no line
/// carries the marker.
pub fn read_sigil_hash(contents: &str) -> (r: Result<String, LockError>)
    ensures
        match r {
            Ok(h) => spec_decode_sigil(contents@) == Some(h@),
            Err(e) => spec_decode_sigil(contents@) is None && e == LockError::NoSigil,
        },
{
    proof {
        lemma_sigil_facts();
    }
    let lines = split_lines(contents);
    let ghost ls = lines@.map_values(|l: String| l@);
    proof {
        assert(ls.skip(0) =~= ls);
    }
    let mut i: usize = 0;
    while i < lines.len()
        invariant
            ls == lines@.map_values(|l: String| l@),
            ls == split_on_nl(contents@),
            0 <= i <= lines@.len(),
            decode_lines(ls) == decode_lines(ls.skip(i as int)),
            sigil_seq().len() == 10,
        decreases lines@.len() - i,
    {
        let line = &lines[i];
        if starts_with(line.as_str(), "# ENVHASH:") {
            let len = line.as_str().unicode_len();
            let payload = line.as_str().substring_char(10, len);
            let h = trim(payload);
            proof {
                assert(is_sigil_line(ls[i as int]));
                assert(ls.skip(i as int)[0] == ls[i as int]);
                assert(decode_lines(ls.skip(i as int)) == Some(sigil_payload(ls[i as int])));
                assert(payload@ =~= ls[i as int].skip(10));
            }
            return Ok(h);
        }
        proof {
            assert(!is_sigil_line(ls[i as int]));
            assert(ls.skip(i as int)[0] == ls[i as int]);
            assert(ls.skip(i as int).skip(1) =~= ls.skip(i + 1));
        }
        i += 1;
    }
    proof {
        assert(ls.skip(ls.len() as int).len() == 0);
    }
    Err(LockError::NoSigil)
}

/// A hash that can sit on a sigil line and survive the round trip: it has
/// no newline and no leading or trailing whitespace.
pub open spec fn is_clean_hash(hash: Seq<char>) -> bool {
    &&& forall|j: int| 0 <= j < hash.len() ==> #[trigger] hash[j] != '\n'
    &&& trim_spec(hash) == hash
}

/// A well-formed digest string is a clean hash: every character is a hex
/// digit, so none is a newline and none is whitespace.
pub proof fn lemma_hash_text_clean(hash: Seq<char>)
    requires
        crate::hashing::is_hash_text(hash),
    ensures
        is_clean_hash(hash),
{
    assert forall|j: int| 0 <= j < hash.len() implies #[trigger] hash[j] != '\n' by {
        assert(crate::hashing::is_hex_char(hash[j]));
    }
    assert(!is_space(hash[0]));
    assert(!is_space(hash[hash.len() - 1]));
    lemma_trim_of_clean(hash);
}

/// Decoding a document that begins with the sigil line for a clean hash
/// returns that hash, whatever body follows the line.
pub proof fn lemma_decode_of_stamped(hash: Seq<char>, body: Seq<char>)
    requires
        is_clean_hash(hash),
    ensures
        spec_decode_sigil(spec_encode_sigil(hash) + body) == Some(hash),
{
    lemma_sigil_facts();
    let enc = spec_encode_sigil(hash) + body;
    let n = sigil_seq().len() as int;
    let hl = hash.len() as int;
    assert forall|j: int| 0 <= j < n + 1 + hl implies enc[j] != '\n' by {
        if j < n {
            assert(enc[j] == sigil_seq()[j]);
        } else if j == n {
            assert(enc[j] == ' ');
        } else {
            assert(enc[j] == hash[j - n - 1]);
        }
    }
    assert(enc[n + 1 + hl] == '\n');
    lemma_first_ix_is(enc, '\n', n + 1 + hl);
    let line0 = enc.take(n + 1 + hl);
    let rest = enc.skip(n + 1 + hl + 1);
    assert(split_on_nl(enc) == seq![line0] + split_on_nl(rest));
    assert(line0.take(n) =~= sigil_seq());
    assert(is_sigil_line(line0));
    assert(decode_lines(split_on_nl(enc)) == Some(sigil_payload(line0))) by {
        assert((seq![line0] + split_on_nl(rest))[0] == line0);
    }
    assert(line0.skip(n) =~= seq![' '] + hash);
    assert(sigil_payload(line0) == trim_spec(seq![' '] + hash));
    assert((seq![' '] + hash).len() > 0 && is_space((seq![' '] + hash)[0]));
    assert((seq![' '] + hash).skip(1) =~= hash);
    assert(trim_spec(seq![' '] + hash) == hash);
}

/// Sigil round trip: encoding a clean hash and decoding the resulting line
/// set returns the original hash exactly.
pub proof fn lemma_sigil_round_trip(hash: Seq<char>)
    requires
        is_clean_hash(hash),
    ensures
        spec_decode_sigil(spec_encode_sigil(hash)) == Some(hash),
{
    lemma_decode_of_stamped(hash, Seq::empty());
    assert(spec_encode_sigil(hash) + Seq::<char>::empty() =~= spec_encode_sigil(hash));
}

/// Assembles the full text of a lockfile: the sigil line for the spec's
/// content hash, then the serialized resolved-environment document.  For a
/// clean hash the result decodes back to that hash, whatever the body holds.
pub fn render_lockfile(env_hash: &str, body: &str) -> (r: String)
    ensures
        r@ == spec_encode_sigil(env_hash@) + body@,
        is_clean_hash(env_hash@) ==> spec_decode_sigil(r@) == Some(env_hash@),
{
    let mut r = encode_sigil(env_hash);
    r.append(body);
    proof {
        if is_clean_hash(env_hash@) {
            lemma_decode_of_stamped(env_hash@, body@);
        }
    }
    r
}

/// Whether an existing lockfile is already fresh for a spec: it exists and
/// its embedded hash equals the spec's content hash.
pub open spec fn spec_up_to_date(lockfile_contents: Option<String>, env_hash: Seq<char>) -> bool {
    match lockfile_contents {
        Some(c) => spec_decode_sigil(c@) == Some(env_hash),
        None => false,
    }
}

/// Decides whether an existing lockfile's embedded hash matches the spec's
/// content hash; an absent lockfile or one with no sigil never matches.
pub fn lockfile_is_up_to_date(lockfile_contents: &Option<String>, env_hash: &str) -> (r: bool)
    ensures
        r == spec_up_to_date(*lockfile_contents, env_hash@),
{
    match lockfile_contents {
        Some(c) => match read_sigil_hash(c.as_str()) {
            Ok(found) => str_eq(found.as_str(), env_hash),
            Err(_) => false,
        },
        None => false,
    }
}

} // verus!
