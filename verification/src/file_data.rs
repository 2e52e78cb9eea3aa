use vstd::prelude::*;

use crate::bytes::Bytes;
use crate::dylib;
use crate::lstat::Lstat;
use crate::text::string_push;

verus! {

// ---------------------------------------------------------------------------
// Content-sniffing fallback engine
// ---------------------------------------------------------------------------

/// What the content-sniffing fallback yields on a byte prefix: the
/// (MIME type, canonical extension) pair of the first known magic byte
/// signature that matches, or nothing. The value is a function of the
/// bytes alone.
pub uninterp spec fn sniff_of(bytes: Seq<u8>) -> Option<(Seq<char>, Seq<char>)>;

/// Relies on `infer::get` together with `Type::mime_type` and
/// `Type::extension`: matches the buffer against the built-in signature
/// table and hands back the MIME type and extension of the first match.
#[verifier::external_body]
fn sniff_prefix(bytes: &[u8]) -> (r: Option<(String, String)>)
    ensures
        r.deep_view() == sniff_of(bytes@),
{
    infer::get(bytes).map(|t| (String::from(t.mime_type()), String::from(t.extension())))
}

// ---------------------------------------------------------------------------
// Symbolic permission rendering
// ---------------------------------------------------------------------------

/// The `ls`-style symbolic rendering of a mode word: the file-type
/// character followed by the nine permission characters, with the setuid,
/// setgid and sticky bits folded in. A function of the mode alone.
pub uninterp spec fn symbolic_of(mode: u32) -> Seq<char>;

/// Relies on `unix_mode::to_string`: decodes the mode word by hand into
/// the standard ten-character notation such as `-rwxr-xr-x`.
#[verifier::external_body]
fn mode_string(mode: u32) -> (r: String)
    ensures
        r@ == symbolic_of(mode),
{
    unix_mode::to_string(mode)
}

// ---------------------------------------------------------------------------
// Classification
// ---------------------------------------------------------------------------

/// A content-type classification. The two engines are never merged: a
/// primary description always wins, and the fallback pair appears only
/// when the primary engine yielded nothing.
#[derive(Debug, Clone, PartialEq, Eq)]
pub enum Classification {
    /// The signature-database engine's free-text description, possibly
    /// holding several comma-separated facets.
    Primary(String),
    /// The sniffing fallback's MIME type and canonical file extension.
    Fallback(String, String),
    /// Neither engine recognized the content.
    Unrecognized,
}

/// The mathematical value of a [`Classification`].
pub enum ClassificationView {
    Primary(Seq<char>),
    Fallback(Seq<char>, Seq<char>),
    Unrecognized,
}

impl View for Classification {
    type V = ClassificationView;

    closed spec fn view(&self) -> ClassificationView {
        match self {
            Classification::Primary(d) => ClassificationView::Primary(d@),
            Classification::Fallback(m, e) => ClassificationView::Fallback(m@, e@),
            Classification::Unrecognized => ClassificationView::Unrecognized,
        }
    }
}

/// How the two engines' outcomes combine: the primary description, if
/// any, takes precedence; otherwise whatever the fallback sniffed;
/// otherwise nothing.
pub open spec fn spec_classify(
    primary: Option<Seq<char>>,
    sniffed: Option<(Seq<char>, Seq<char>)>,
) -> ClassificationView {
    match primary {
        Some(d) => ClassificationView::Primary(d),
        None => match sniffed {
            Some(p) => ClassificationView::Fallback(p.0, p.1),
            None => ClassificationView::Unrecognized,
        },
    }
}

/// A MIME type in the `application` family.
pub open spec fn spec_is_app_mime(m: Seq<char>) -> bool {
    m.len() >= 5 && m[0] == 'a' && m[1] == 'p' && m[2] == 'p' && m[3] == 'l' && m[4] == 'i'
}

/// The fallback MIME type alone, out of a sniffing outcome.
pub open spec fn spec_fallback_mime(sniffed: Option<(Seq<char>, Seq<char>)>) -> Option<Seq<char>> {
    match sniffed {
        Some(p) => Some(p.0),
        None => None,
    }
}

/// Whether a string starts with the five characters `appli`, marking the
/// `application` MIME family.
fn has_application_prefix(s: &str) -> (r: bool)
    ensures
        r == spec_is_app_mime(s@),
{
    if s.unicode_len() < 5 {
        return false;
    }
    s.get_char(0) == 'a' && s.get_char(1) == 'p' && s.get_char(2) == 'p' && s.get_char(3) == 'l'
        && s.get_char(4) == 'i'
}

// ---------------------------------------------------------------------------
// Rendering a primary description as bulleted lines
// ---------------------------------------------------------------------------

/// A Unicode whitespace character, as `char::is_whitespace` accepts it.
pub open spec fn is_space_char(c: char) -> bool {
    ||| c == ' '
    ||| c == '\t'
    ||| c == '\n'
    ||| c == '\u{b}'
    ||| c == '\u{c}'
    ||| c == '\r'
    ||| c == '\u{85}'
    ||| c == '\u{a0}'
    ||| c == '\u{1680}'
    ||| c == '\u{2000}'
    ||| c == '\u{2001}'
    ||| c == '\u{2002}'
    ||| c == '\u{2003}'
    ||| c == '\u{2004}'
    ||| c == '\u{2005}'
    ||| c == '\u{2006}'
    ||| c == '\u{2007}'
    ||| c == '\u{2008}'
    ||| c == '\u{2009}'
    ||| c == '\u{200a}'
    ||| c == '\u{2028}'
    ||| c == '\u{2029}'
    ||| c == '\u{202f}'
    ||| c == '\u{205f}'
    ||| c == '\u{3000}'
}

/// The sequence with its leading whitespace removed.
pub open spec fn trim_start(s: Seq<char>) -> Seq<char>
    decreases s.len(),
{
    if s.len() > 0 && is_space_char(s.first()) {
        trim_start(s.drop_first())
    } else {
        s
    }
}

/// The sequence with its trailing whitespace removed.
pub open spec fn trim_end(s: Seq<char>) -> Seq<char>
    decreases s.len(),
{
    if s.len() > 0 && is_space_char(s.last()) {
        trim_end(s.drop_last())
    } else {
        s
    }
}

/// The sequence with whitespace removed from both ends.
pub open spec fn trimmed(s: Seq<char>) -> Seq<char> {
    trim_end(trim_start(s))
}

/// The index of the first comma, or the length when there is none.
pub open spec fn first_comma(s: Seq<char>) -> nat
    decreases s.len(),
{
    if s.len() == 0 {
        0
    } else if s.first() == ',' {
        0
    } else {
        1 + first_comma(s.drop_first())
    }
}

/// One description facet, trimmed and set on a bulleted line of its own.
pub open spec fn spec_bullet_line(seg: Seq<char>) -> Seq<char> {
    seq!['\u{b7}', ' '] + trimmed(seg) + seq!['\n']
}

/// The rendering of a primary description: each comma-separated facet
/// trimmed and set on its own bulleted line.
pub open spec fn spec_libmagic_display(msg: Seq<char>) -> Seq<char>
    decreases msg.len(),
{
    let k = first_comma(msg);
    if k >= msg.len() {
        spec_bullet_line(msg)
    } else {
        spec_bullet_line(msg.take(k as int)) + spec_libmagic_display(msg.skip(k as int + 1))
    }
}

/// A scan that stopped at a comma, or ran to the end without finding
/// one, stopped exactly at `first_comma`.
proof fn lemma_first_comma_at(s: Seq<char>, k: int)
    requires
        0 <= k <= s.len(),
        forall|i: int| 0 <= i < k ==> s[i] != ',',
        k == s.len() || s[k] == ',',
    ensures
        first_comma(s) == k,
    decreases s.len(),
{
    if s.len() == 0 {
    } else if s.first() == ',' {
    } else {
        lemma_first_comma_at(s.drop_first(), k - 1);
    }
}

/// Dropping the scanned leading whitespace is exactly `trim_start`.
proof fn lemma_trim_start_skip(s: Seq<char>, a: int)
    requires
        0 <= a <= s.len(),
        forall|i: int| 0 <= i < a ==> is_space_char(s[i]),
        a == s.len() || !is_space_char(s[a]),
    ensures
        trim_start(s) == s.skip(a),
    decreases a,
{
    if a == 0 {
        assert(s.skip(0) =~= s);
    } else {
        lemma_trim_start_skip(s.drop_first(), a - 1);
        assert(s.drop_first().skip(a - 1) =~= s.skip(a));
    }
}

/// Dropping the scanned trailing whitespace is exactly `trim_end`.
proof fn lemma_trim_end_take(s: Seq<char>, b: int)
    requires
        0 <= b <= s.len(),
        forall|i: int| b <= i < s.len() ==> is_space_char(s[i]),
        b == 0 || !is_space_char(s[b - 1]),
    ensures
        trim_end(s) == s.take(b),
    decreases s.len(),
{
    if b == s.len() {
        if s.len() == 0 {
            assert(s.take(0) =~= s);
        } else {
            assert(s.take(b) =~= s);
        }
    } else {
        assert(is_space_char(s.last()));
        lemma_trim_end_take(s.drop_last(), b);
        assert(s.drop_last().take(b) =~= s.take(b));
    }
}

/// The whole trim, phrased over the two scan bounds.
proof fn lemma_trimmed_subrange(s: Seq<char>, a: int, b: int)
    requires
        0 <= a <= b <= s.len(),
        forall|i: int| 0 <= i < a ==> is_space_char(s[i]),
        forall|i: int| b <= i < s.len() ==> is_space_char(s[i]),
        a == s.len() || !is_space_char(s[a]),
        b == a || !is_space_char(s[b - 1]),
    ensures
        trimmed(s) == s.subrange(a, b),
    decreases s.len(),
{
    lemma_trim_start_skip(s, a);
    lemma_trim_end_take(s.skip(a), b - a);
    assert(s.skip(a).take(b - a) =~= s.subrange(a, b));
}

/// Appends the trimmed content of `seg` to `out`.
fn append_trimmed(seg: &str, out: &mut String)
    ensures
        final(out)@ == old(out)@ + trimmed(seg@),
{
    let len = seg.unicode_len();
    let mut a: usize = 0;
    while a < len && is_space(seg.get_char(a))
        invariant
            a <= len,
            len == seg@.len(),
            forall|i: int| 0 <= i < a ==> is_space_char(seg@[i]),
        decreases len - a,
    {
        a += 1;
    }
    let mut b: usize = len;
    while b > a && is_space(seg.get_char(b - 1))
        invariant
            a <= b <= len,
            len == seg@.len(),
            forall|i: int| b <= i < len ==> is_space_char(seg@[i]),
        decreases b,
    {
        b -= 1;
    }
    proof {
        lemma_trimmed_subrange(seg@, a as int, b as int);
    }
    let core = seg.substring_char(a, b);
    out.append(core);
}

/// A Unicode whitespace character, as executable code.
fn is_space(c: char) -> (r: bool)
    ensures
        r == is_space_char(c),
{
    c == ' ' || c == '\t' || c == '\n' || c == '\u{b}' || c == '\u{c}' || c == '\r'
        || c == '\u{85}' || c == '\u{a0}' || c == '\u{1680}' || c == '\u{2000}' || c == '\u{2001}'
        || c == '\u{2002}' || c == '\u{2003}' || c == '\u{2004}' || c == '\u{2005}'
        || c == '\u{2006}' || c == '\u{2007}' || c == '\u{2008}' || c == '\u{2009}'
        || c == '\u{200a}' || c == '\u{2028}' || c == '\u{2029}' || c == '\u{202f}'
        || c == '\u{205f}' || c == '\u{3000}'
}

/// Appends the rendering of `msg` to `out`, one facet at a time.
fn render_description(msg: &str, out: &mut String)
    ensures
        final(out)@ == old(out)@ + spec_libmagic_display(msg@),
    decreases msg@.len(),
{
    let len = msg.unicode_len();
    let mut k: usize = 0;
    while k < len && msg.get_char(k) != ','
        invariant
            k <= len,
            len == msg@.len(),
            forall|i: int| 0 <= i < k ==> msg@[i] != ',',
        decreases len - k,
    {
        k += 1;
    }
    proof {
        lemma_first_comma_at(msg@, k as int);
    }
    string_push(out, '\u{b7}');
    string_push(out, ' ');
    if k == len {
        append_trimmed(msg, out);
        string_push(out, '\n');
        proof {
            assert(msg@.take(len as int) =~= msg@);
            assert(out@ =~= old(out)@ + spec_libmagic_display(msg@));
        }
    } else {
        let seg = msg.substring_char(0, k);
        append_trimmed(seg, out);
        string_push(out, '\n');
        let rest = msg.substring_char(k + 1, len);
        render_description(rest, out);
        proof {
            assert(msg@.subrange(0, k as int) =~= msg@.take(k as int));
            assert(msg@.subrange(k as int + 1, len as int) =~= msg@.skip(k as int + 1));
            assert(out@ =~= old(out)@ + spec_libmagic_display(msg@));
        }
    }
}

/// Renders a primary engine description for display: every
/// comma-separated facet of the description trimmed and set on a
/// bulleted line of its own.
pub fn libmagic_display(mime_msg: String) -> (r: String)
    ensures
        r@ == spec_libmagic_display(mime_msg@),
{
    let mut out = String::new();
    render_description(mime_msg.as_str(), &mut out);
    proof {
        assert(out@ =~= spec_libmagic_display(mime_msg@));
    }
    out
}

// ---------------------------------------------------------------------------
// The per-inspection record
// ---------------------------------------------------------------------------

/// Full-content parsing for dependency extraction holds the whole file in
/// addressable memory, so extraction is refused at and above this many
/// bytes, before any content is loaded or parsed.
pub const DEPENDENCY_SIZE_CEILING: u64 = 100_000_000;

/// Everything one inspection owns: the canonical path, the status
/// snapshot captured once, and the primary classification engine's
/// description, acquired at most once and held here.
///
/// The record is assembled by the caller that performs the raw
/// acquisitions; every decision over the data is made here.
pub struct FileData {
    path: String,
    stat: Lstat,
    magic_desc: Option<String>,
}

impl FileData {
    /// The canonical path the inspection was made on.
    pub closed spec fn spec_path(&self) -> Seq<char> {
        self.path@
    }

    /// The status snapshot.
    pub closed spec fn spec_stat(&self) -> Lstat {
        self.stat
    }

    /// The primary engine's description, when one was acquired.
    pub closed spec fn spec_magic_desc(&self) -> Option<Seq<char>> {
        self.magic_desc.deep_view()
    }

    /// Whether dependency extraction may be attempted: the owner-execute
    /// bit is set and the size is under the safety ceiling.
    pub open spec fn spec_scan_allowed(&self) -> bool {
        &&& self.spec_stat().spec_mode() & 0o100 != 0
        &&& self.spec_stat().spec_size() < DEPENDENCY_SIZE_CEILING
    }

    /// Assembles one inspection's record from the acquired values.
    pub fn new(path: String, stat: Lstat, magic_desc: Option<String>) -> (r: FileData)
        ensures
            r.spec_path() == path@,
            r.spec_stat() == stat,
            r.spec_magic_desc() == magic_desc.deep_view(),
    {
        FileData { path, stat, magic_desc }
    }

    /// The canonical path, for display.
    pub fn path(&self) -> (r: &String)
        ensures
            r@ == self.spec_path(),
    {
        &self.path
    }

    /// The MIME description read through the signature-database engine,
    /// when the engine was available and recognized the file.
    pub fn libmagic_mime_type(&self) -> (r: Option<String>)
        ensures
            r.deep_view() == self.spec_magic_desc(),
    {
        match &self.magic_desc {
            Some(d) => Some(d.clone()),
            None => None,
        }
    }

    /// The MIME type sniffed from a prefix of the file's content. This is
    /// the fallback engine; it yields less detail than the primary one.
    pub fn fallback_mime_type(&self, prefix: &[u8]) -> (r: Option<String>)
        ensures
            r.deep_view() == spec_fallback_mime(sniff_of(prefix@)),
    {
        match sniff_prefix(prefix) {
            Some((mime, _ext)) => Some(mime),
            None => None,
        }
    }

    /// Classifies the content: the primary engine's description always
    /// takes precedence, and the fallback pair is shown only when the
    /// primary engine yielded nothing.
    pub fn classify(&self, prefix: &[u8]) -> (r: Classification)
        ensures
            r@ == spec_classify(self.spec_magic_desc(), sniff_of(prefix@)),
    {
        match &self.magic_desc {
            Some(d) => Classification::Primary(d.clone()),
            None => match sniff_prefix(prefix) {
                Some((mime, ext)) => Classification::Fallback(mime, ext),
                None => Classification::Unrecognized,
            },
        }
    }

    /// The size of the file, ready for scaled display.
    pub fn size(&self) -> (r: Bytes)
        ensures
            r@ == self.spec_stat().spec_size(),
    {
        Bytes::new(self.stat.size())
    }

    /// The file's last-access time in epoch seconds.
    pub fn last_accessed_time(&self) -> (r: i64)
        ensures
            r == self.spec_stat().spec_accessed(),
    {
        self.stat.accessed()
    }

    /// The file's last-modification time in epoch seconds.
    pub fn last_modified_time(&self) -> (r: i64)
        ensures
            r == self.spec_stat().spec_modified(),
    {
        self.stat.modified()
    }

    /// Pairs the owning user id with its account name, when the caller's
    /// best-effort database lookup produced one. An unmapped id is a
    /// normal outcome, not an error.
    pub fn owner_user(&self, name: Option<String>) -> (r: Option<(u32, String)>)
        ensures
            r.deep_view() == match name.deep_view() {
                Some(n) => Some((self.spec_stat().spec_owner_user_id(), n)),
                None => None::<(u32, Seq<char>)>,
            },
    {
        match name {
            Some(n) => Some((self.stat.owner_user_id(), n)),
            None => None,
        }
    }

    /// Pairs the owning group id with its group name, when the caller's
    /// best-effort database lookup produced one.
    pub fn owner_group(&self, name: Option<String>) -> (r: Option<(u32, String)>)
        ensures
            r.deep_view() == match name.deep_view() {
                Some(n) => Some((self.spec_stat().spec_owner_group_id(), n)),
                None => None::<(u32, Seq<char>)>,
            },
    {
        match name {
            Some(n) => Some((self.stat.owner_group_id(), n)),
            None => None,
        }
    }

    /// The raw permission bits (the three rwx triples of the mode),
    /// alongside the `ls`-style symbolic rendering of the full mode.
    pub fn permissions(&self) -> (r: (u32, String))
        ensures
            r.0 == self.spec_stat().spec_mode() & 0o777,
            r.1@ == symbolic_of(self.spec_stat().spec_mode()),
    {
        (self.stat.mode() & 0o777, mode_string(self.stat.mode()))
    }

    /// True when the sniffing fallback places the content in the
    /// `application` MIME family. The primary engine plays no part here:
    /// this predicate goes by the fallback's classification whether or
    /// not a primary description exists.
    pub fn is_application(&self, prefix: &[u8]) -> (r: bool)
        ensures
            r == match sniff_of(prefix@) {
                Some(p) => spec_is_app_mime(p.0),
                None => false,
            },
    {
        match sniff_prefix(prefix) {
            Some((mime, _ext)) => has_application_prefix(mime.as_str()),
            None => false,
        }
    }

    /// True when the owner-execute bit of the mode is set.
    pub fn is_executable(&self) -> (r: bool)
        ensures
            r == (self.spec_stat().spec_mode() & 0o100 != 0),
    {
        self.stat.mode() & 0o100 != 0
    }

    /// True when dependency extraction may be attempted at all. The
    /// caller consults this before loading any content: the size ceiling
    /// exists precisely so that an oversized file is never read or
    /// mapped.
    pub fn wants_dependency_scan(&self) -> (r: bool)
        ensures
            r == self.spec_scan_allowed(),
    {
        self.is_executable() && self.stat.size() < DEPENDENCY_SIZE_CEILING
    }

    /// The direct dynamic dependencies of the file, given its content.
    ///
    /// Yields nothing (never an error) when the file is not executable by
    /// its mode bits, when its size reaches the ceiling — both checked
    /// before any parse attempt — or when the content is not a recognized
    /// binary-object format. Dependencies come in the order the binary's
    /// own table names them, duplicates preserved.
    pub fn read_dynamic_dependencies(&self, contents: &[u8]) -> (r: Option<Vec<String>>)
        ensures
            r.deep_view() == if self.spec_scan_allowed() {
                dylib::object_deps(contents@)
            } else {
                None::<Seq<Seq<char>>>
            },
    {
        if !self.wants_dependency_scan() {
            return None;
        }
        dylib::read_dynamic_dependencies(contents)
    }
}

// ---------------------------------------------------------------------------
// Laws of the classifier
// ---------------------------------------------------------------------------

/// Classification priority: whenever the primary engine produced a
/// description the classification is that description, whatever the
/// fallback sniffed; the fallback pair is shown exactly when the primary
/// yielded nothing and a signature matched; and the content counts as
/// unrecognized exactly when both engines yielded nothing.
pub proof fn lemma_primary_precedence(
    primary: Option<Seq<char>>,
    sniffed: Option<(Seq<char>, Seq<char>)>,
)
    ensures
        primary matches Some(d) ==> spec_classify(primary, sniffed)
            == ClassificationView::Primary(d),
        primary is None ==> (sniffed matches Some(p) ==> spec_classify(primary, sniffed)
            == ClassificationView::Fallback(p.0, p.1)),
        primary is None && sniffed is None ==> spec_classify(primary, sniffed)
            == ClassificationView::Unrecognized,
{
}

/// Classification is deterministic: it is a function of the acquired
/// primary description and of the sniffed content prefix alone, so two
/// classifications of the same unchanged inputs agree.
pub proof fn lemma_classification_deterministic(
    r1: Classification,
    r2: Classification,
    primary: Option<Seq<char>>,
    sniffed: Option<(Seq<char>, Seq<char>)>,
)
    requires
        r1@ == spec_classify(primary, sniffed),
        r2@ == spec_classify(primary, sniffed),
    ensures
        r1@ == r2@,
{
}

} // verus!
