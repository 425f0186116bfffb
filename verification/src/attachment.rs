//! Saving an attachment under a download directory: filename sanitization,
//! collision-avoiding numbering, and decoding of the base64 payload. The
//! caller lists the directory and writes the bytes; the library decides the
//! file name and produces the contents.

use vstd::prelude::*;
use vstd::string::*;
use base64::Engine as _;
use crate::strutil::{dec_digits, push_decimal, trim_str, trimmed};

verus! {

/// Whether `c` is one of the characters a file name may not carry.
pub open spec fn is_invalid_fname_char(c: char) -> bool {
    c == '\\' || c == '/' || c == ':' || c == '*' || c == '?' || c == '"' || c == '<' || c == '>'
        || c == '|'
}

/// Executable check for [`is_invalid_fname_char`].
pub fn is_invalid_filename_char(c: char) -> (r: bool)
    ensures
        r == is_invalid_fname_char(c),
{
    c == '\\' || c == '/' || c == ':' || c == '*' || c == '?' || c == '"' || c == '<' || c == '>'
        || c == '|'
}

/// `s` with every invalid filename character replaced by an underscore.
pub open spec fn replace_invalid(s: Seq<char>) -> Seq<char> {
    Seq::new(
        s.len(),
        |i: int|
            if is_invalid_fname_char(s[i]) {
                '_'
            } else {
                s[i]
            },
    )
}

/// What sanitization makes of a requested file name: the name is trimmed,
/// an empty remainder becomes `attachment`, and every invalid character of
/// a non-empty remainder becomes an underscore.
pub open spec fn sanitized(name: Seq<char>) -> Seq<char> {
    if trimmed(name).len() == 0 {
        "attachment"@
    } else {
        replace_invalid(trimmed(name))
    }
}

/// Makes a requested name safe to use as a file name, per [`sanitized`].
pub fn sanitize_filename(name: &str) -> (r: String)
    ensures
        r@ == sanitized(name@),
{
    let t = trim_str(name);
    let n = t.as_str().unicode_len();
    if n == 0 {
        return String::from_str("attachment");
    }
    let mut out = String::new();
    let mut i: usize = 0;
    proof {
        assert(out@ =~= replace_invalid(t@).take(0));
    }
    while i < n
        invariant
            t@ == trimmed(name@),
            n == t@.len(),
            0 < n,
            0 <= i <= n,
            out@ == replace_invalid(t@).take(i as int),
        decreases n - i,
    {
        let c = t.as_str().get_char(i);
        if is_invalid_filename_char(c) {
            crate::strutil::push_char(&mut out, '_');
        } else {
            crate::strutil::push_char(&mut out, c);
        }
        proof {
            assert(out@ =~= replace_invalid(t@).take(i as int + 1));
        }
        i = i + 1;
    }
    proof {
        assert(replace_invalid(t@).take(n as int) =~= replace_invalid(t@));
    }
    out
}

/// A sanitized name never carries an invalid filename character, and a name
/// that is empty after trimming comes out as `attachment`.
pub proof fn lemma_sanitize_filename(name: Seq<char>)
    ensures
        forall|i: int|
            0 <= i < sanitized(name).len() ==> !is_invalid_fname_char(#[trigger] sanitized(name)[i]),
        trimmed(name).len() == 0 ==> sanitized(name) == "attachment"@,
{
    reveal_strlit("attachment");
    assert(forall|i: int|
        0 <= i < sanitized(name).len() ==> !is_invalid_fname_char(#[trigger] sanitized(name)[i]));
}

/// The index of the last `.` in `s`, or a negative value when there is none.
pub open spec fn last_dot_pos(s: Seq<char>) -> int
    decreases s.len(),
{
    if s.len() == 0 {
        -1
    } else if s.last() == '.' {
        s.len() - 1
    } else {
        last_dot_pos(s.drop_last())
    }
}

/// The file name without its extension: everything before the last `.`,
/// unless the only `.` leads the name, in which case the whole name is the
/// stem.
pub open spec fn stem_of(s: Seq<char>) -> Seq<char> {
    if last_dot_pos(s) > 0 {
        s.take(last_dot_pos(s))
    } else {
        s
    }
}

/// The extension: everything after the last `.`, empty when the name has
/// none worth keeping.
pub open spec fn ext_of(s: Seq<char>) -> Seq<char> {
    if last_dot_pos(s) > 0 {
        s.skip(last_dot_pos(s) + 1)
    } else {
        Seq::empty()
    }
}

proof fn lemma_last_dot_take(s: Seq<char>, j: int)
    requires
        0 <= j <= s.len(),
        forall|k: int| j <= k < s.len() ==> s[k] != '.',
    ensures
        last_dot_pos(s) == last_dot_pos(s.take(j)),
    decreases s.len() - j,
{
    if j < s.len() {
        assert(s.last() != '.');
        assert(s.drop_last() == s.take(s.len() - 1));
        lemma_last_dot_take(s.take(s.len() - 1), j);
        assert(s.take(s.len() - 1).take(j) =~= s.take(j));
    } else {
        assert(s.take(j) =~= s);
    }
}

/// Splits a file name into stem and extension at the last `.`, the way the
/// numbered collision candidates are formed around it.
pub fn split_extension(name: &String) -> (r: (String, String))
    ensures
        r.0@ == stem_of(name@),
        r.1@ == ext_of(name@),
{
    let n = name.as_str().unicode_len();
    let mut j: usize = n;
    while j > 0 && name.as_str().get_char(j - 1) != '.'
        invariant
            n == name@.len(),
            0 <= j <= n,
            forall|k: int| j <= k < n ==> name@[k] != '.',
        decreases j,
    {
        j = j - 1;
    }
    proof {
        lemma_last_dot_take(name@, j as int);
        if j > 0 {
            assert(name@.take(j as int).last() == name@[j - 1]);
            assert(last_dot_pos(name@.take(j as int)) == j - 1);
        }
    }
    if j > 1 {
        let stem = name.as_str().substring_char(0, j - 1);
        let stem = String::from_str(stem);
        let ext = name.as_str().substring_char(j, n);
        let ext = String::from_str(ext);
        (stem, ext)
    } else {
        proof {
            assert(last_dot_pos(name@) <= 0);
        }
        (name.clone(), String::new())
    }
}

/// Whether `name` is already present among the directory's entries.
pub open spec fn name_taken(existing: Seq<String>, name: Seq<char>) -> bool {
    exists|i: int| 0 <= i < existing.len() && existing[i]@ == name
}

/// Looks `name` up among the directory's entries.
pub fn contains_name(existing: &Vec<String>, name: &String) -> (r: bool)
    ensures
        r == name_taken(existing@, name@),
{
    let mut i: usize = 0;
    while i < existing.len()
        invariant
            0 <= i <= existing@.len(),
            forall|k: int| 0 <= k < i ==> existing@[k]@ != name@,
        decreases existing@.len() - i,
    {
        if existing[i].eq(name) {
            return true;
        }
        i = i + 1;
    }
    false
}

/// How many numbered candidates are tried before the collision search gives
/// up.
pub const CANDIDATE_BOUND: u64 = 1000;

/// The `idx`-numbered candidate for a colliding name: the suffix goes
/// before the extension, `stem-idx.ext`, or plain `stem-idx` without one.
pub open spec fn candidate_text(stem: Seq<char>, ext: Seq<char>, idx: nat) -> Seq<char> {
    if ext.len() == 0 {
        stem + "-"@ + dec_digits(idx)
    } else {
        stem + "-"@ + dec_digits(idx) + "."@ + ext
    }
}

fn make_candidate(stem: &String, ext: &String, idx: u64) -> (c: String)
    ensures
        c@ == candidate_text(stem@, ext@, idx as nat),
{
    let mut c = stem.clone();
    c.append("-");
    push_decimal(&mut c, idx);
    if ext.as_str().unicode_len() > 0 {
        c.append(".");
        c.append(ext.as_str());
    }
    proof {
        assert(c@ =~= candidate_text(stem@, ext@, idx as nat));
    }
    c
}

/// The first free numbered candidate from `idx` up, or nothing when every
/// number up to the bound is taken.
pub open spec fn first_free(
    existing: Seq<String>,
    stem: Seq<char>,
    ext: Seq<char>,
    idx: nat,
) -> Option<Seq<char>>
    decreases CANDIDATE_BOUND - idx,
{
    if idx >= CANDIDATE_BOUND {
        None
    } else if !name_taken(existing, candidate_text(stem, ext, idx)) {
        Some(candidate_text(stem, ext, idx))
    } else {
        first_free(existing, stem, ext, idx + 1)
    }
}

/// The name a save uses in a directory whose entries are `existing`: the
/// desired name itself when free, otherwise the first free numbered
/// candidate — and nothing once the bound is spent, so an existing file is
/// never reused.
pub open spec fn unique_choice(existing: Seq<String>, name: Seq<char>) -> Option<Seq<char>> {
    if !name_taken(existing, name) {
        Some(name)
    } else {
        first_free(existing, stem_of(name), ext_of(name), 1)
    }
}

/// Picks the file name a save uses so that nothing already in the directory
/// is overwritten: `file_name` itself when free, else `stem-1.ext`,
/// `stem-2.ext`, ..., and nothing when every candidate up to the bound is
/// taken.
pub fn unique_path(existing: &Vec<String>, file_name: &String) -> (r: Option<String>)
    ensures
        r is Some <==> unique_choice(existing@, file_name@) is Some,
        r matches Some(s) ==> unique_choice(existing@, file_name@) == Some(s@),
{
    if !contains_name(existing, file_name) {
        return Some(file_name.clone());
    }
    let (stem, ext) = split_extension(file_name);
    let mut idx: u64 = 1;
    while idx < CANDIDATE_BOUND
        invariant
            1 <= idx <= CANDIDATE_BOUND,
            stem@ == stem_of(file_name@),
            ext@ == ext_of(file_name@),
            name_taken(existing@, file_name@),
            first_free(existing@, stem@, ext@, 1) == first_free(
                existing@,
                stem@,
                ext@,
                idx as nat,
            ),
        decreases CANDIDATE_BOUND - idx,
    {
        let cand = make_candidate(&stem, &ext, idx);
        if !contains_name(existing, &cand) {
            return Some(cand);
        }
        idx = idx + 1;
    }
    None
}

proof fn lemma_first_free_fresh(existing: Seq<String>, stem: Seq<char>, ext: Seq<char>, idx: nat)
    ensures
        first_free(existing, stem, ext, idx) matches Some(c) ==> !name_taken(existing, c),
    decreases CANDIDATE_BOUND - idx,
{
    if idx < CANDIDATE_BOUND && name_taken(existing, candidate_text(stem, ext, idx)) {
        lemma_first_free_fresh(existing, stem, ext, idx + 1);
    }
}

/// The chosen name never collides: whenever `unique_choice` picks a name at
/// all, that name is not among the directory's entries, so no existing file
/// is ever overwritten — exhaustion of the bound yields no name rather than
/// a colliding one.
pub proof fn lemma_unique_choice_fresh(existing: Seq<String>, name: Seq<char>)
    ensures
        unique_choice(existing, name) matches Some(c) ==> !name_taken(existing, c),
{
    if name_taken(existing, name) {
        lemma_first_free_fresh(existing, stem_of(name), ext_of(name), 1);
    }
}

/// As long as some numbered candidate below the bound is still free, the
/// search does find a name.
pub proof fn lemma_unique_choice_available(existing: Seq<String>, name: Seq<char>)
    requires
        exists|j: nat|
            1 <= j < CANDIDATE_BOUND && !name_taken(
                existing,
                #[trigger] candidate_text(stem_of(name), ext_of(name), j),
            ),
    ensures
        unique_choice(existing, name) is Some,
{
    if name_taken(existing, name) {
        lemma_first_free_available(existing, stem_of(name), ext_of(name), 1);
    }
}

proof fn lemma_first_free_available(
    existing: Seq<String>,
    stem: Seq<char>,
    ext: Seq<char>,
    idx: nat,
)
    requires
        exists|j: nat|
            idx <= j < CANDIDATE_BOUND && !name_taken(
                existing,
                #[trigger] candidate_text(stem, ext, j),
            ),
    ensures
        first_free(existing, stem, ext, idx) is Some,
    decreases CANDIDATE_BOUND - idx,
{
    let j = choose|j: nat|
        idx <= j < CANDIDATE_BOUND && !name_taken(
            existing,
            #[trigger] candidate_text(stem, ext, j),
        );
    if name_taken(existing, candidate_text(stem, ext, idx)) {
        assert(j != idx);
        lemma_first_free_available(existing, stem, ext, idx + 1);
    }
}

/// Saving the same name twice never overwrites: the first save's name is
/// fresh for the directory, and after it appears there, a second save that
/// finds a name at all picks a different one that is fresh as well — two
/// saves, two distinct files, and nothing that was there before is touched.
pub proof fn lemma_no_overwrite(
    existing: Seq<String>,
    name: Seq<char>,
    saved_first: String,
    existing_after: Seq<String>,
)
    requires
        unique_choice(existing, name) == Some(saved_first@),
        existing_after == existing.push(saved_first),
    ensures
        !name_taken(existing, saved_first@),
        unique_choice(existing_after, name) matches Some(second) ==> second != saved_first@
            && !name_taken(existing_after, second) && !name_taken(existing, second),
{
    lemma_unique_choice_fresh(existing, name);
    lemma_unique_choice_fresh(existing_after, name);
    let choice_after = unique_choice(existing_after, name);
    if choice_after is Some {
        let second = choice_after->0;
        assert(existing_after[existing_after.len() - 1] == saved_first);
        assert(second != saved_first@);
        assert(!name_taken(existing, second)) by {
            if name_taken(existing, second) {
                let i = choose|i: int| 0 <= i < existing.len() && existing[i]@ == second;
                assert(existing_after[i]@ == second);
            }
        }
    }
}

/// What the base64 decoder makes of a payload: the decoded bytes, or
/// nothing when the payload is not valid base64. The result depends on the
/// characters alone.
pub uninterp spec fn base64_decoding(data: Seq<char>) -> Option<Seq<u8>>;

/// The decoder's error, declared so a result can carry it.
#[verifier::external_type_specification]
#[verifier::external_body]
pub struct ExDecodeError(base64::DecodeError);

/// Relies on base64's standard-alphabet engine: `decode` succeeds exactly
/// on valid padded base64 text and returns the decoded bytes, a pure
/// function of its input.
#[verifier::external_body]
fn decode_base64(data: &str) -> (r: Result<Vec<u8>, base64::DecodeError>)
    ensures
        r is Ok <==> base64_decoding(data@) is Some,
        r matches Ok(v) ==> Some(v@) == base64_decoding(data@),
{
    base64::engine::general_purpose::STANDARD.decode(data)
}

/// Why a save request was rejected before anything was written.
#[derive(PartialEq, Eq, Structural, Debug)]
pub enum AttachmentError {
    /// The payload was not valid base64.
    InvalidBase64,
    /// Every collision-avoiding name up to the bound is taken; nothing is
    /// written rather than an existing file reused.
    NameExhausted,
}

impl AttachmentError {
    /// A short description for the UI.
    pub fn message(&self) -> (r: String)
        ensures
            *self == AttachmentError::InvalidBase64 ==> r@ == "invalid base64 data"@,
            *self == AttachmentError::NameExhausted ==> r@ == "no free file name"@,
    {
        match self {
            AttachmentError::InvalidBase64 => String::from_str("invalid base64 data"),
            AttachmentError::NameExhausted => String::from_str("no free file name"),
        }
    }
}

/// A decided save: which file name to create in the target directory, and
/// the bytes to write there.
#[derive(Debug)]
pub struct SavePlan {
    /// The chosen file name, sanitized and collision-free for the listed
    /// directory.
    pub file_name: String,
    /// The decoded attachment contents.
    pub contents: Vec<u8>,
}

/// Where the attachment goes: the requested directory when one was named
/// and is non-blank after trimming; otherwise the caller's default download
/// directory stands in.
pub fn resolve_target_dir(target: Option<String>) -> (r: Option<String>)
    ensures
        r is Some <==> (target matches Some(d) && trimmed(d@).len() > 0),
        r matches Some(d) ==> target matches Some(t) && d@ == trimmed(t@),
{
    match target {
        Some(d) => {
            let t = trim_str(d.as_str());
            if t.as_str().unicode_len() > 0 {
                Some(t)
            } else {
                None
            }
        },
        None => None,
    }
}

/// Decides a whole save: sanitizes the requested name, picks a collision
/// free file name for the directory whose entries are `existing`, and
/// decodes the trimmed base64 payload. Succeeds exactly when a free name
/// exists and the payload decodes; nothing is decided about the filesystem
/// itself.
pub fn save_attachment_plan(name: &str, data_base64: &str, existing: &Vec<String>) -> (r: Result<
    SavePlan,
    AttachmentError,
>)
    ensures
        r is Ok <==> (unique_choice(existing@, sanitized(name@)) is Some && base64_decoding(
            trimmed(data_base64@),
        ) is Some),
        r matches Ok(p) ==> Some(p.contents@) == base64_decoding(trimmed(data_base64@)),
        r matches Ok(p) ==> Some(p.file_name@) == unique_choice(existing@, sanitized(name@)),
        r == Err::<SavePlan, AttachmentError>(AttachmentError::NameExhausted) <==> unique_choice(
            existing@,
            sanitized(name@),
        ) is None,
        r == Err::<SavePlan, AttachmentError>(AttachmentError::InvalidBase64) <==> (unique_choice(
            existing@,
            sanitized(name@),
        ) is Some && base64_decoding(trimmed(data_base64@)) is None),
{
    let safe_name = sanitize_filename(name);
    let file_name = match unique_path(existing, &safe_name) {
        Some(f) => f,
        None => {
            return Err(AttachmentError::NameExhausted);
        },
    };
    let trimmed_data = trim_str(data_base64);
    match decode_base64(trimmed_data.as_str()) {
        Ok(bytes) => Ok(SavePlan { file_name, contents: bytes }),
        Err(_) => Err(AttachmentError::InvalidBase64),
    }
}

} // verus!
