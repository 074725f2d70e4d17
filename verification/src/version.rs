//! Versions of the dsh npm package: reading them from text, ordering them by
//! SemVer precedence (through the `semver` crate), and writing them out.

use vstd::prelude::*;
use vstd::string::*;

use crate::text::{
    decimal, decimal_string, is_char, is_digit, strip_both, strip_end, strip_start, trim, trim_class,
    trim_start_class, trim_ws, white_space, CharClass,
};

verus! {

/// The plain content of a SemVer version.
pub ghost struct VersionView {
    pub major: u64,
    pub minor: u64,
    pub patch: u64,
    pub pre: Seq<char>,
    pub build: Seq<char>,
}

/// What `semver::Version::parse` gives for a text: the parsed version, or the
/// text of its error.
pub uninterp spec fn semver_parse_result(text: Seq<char>) -> Result<VersionView, Seq<char>>;

/// Whether `a` has lower SemVer precedence than `b`, as `semver` decides it
/// (build metadata plays no part).
pub uninterp spec fn semver_precedes(a: VersionView, b: VersionView) -> bool;

/// Whether two versions have the same precedence: equal major, minor and
/// patch numbers and equal pre-release (build metadata is not compared).
pub open spec fn same_precedence(a: VersionView, b: VersionView) -> bool {
    &&& a.major == b.major
    &&& a.minor == b.minor
    &&& a.patch == b.patch
    &&& a.pre == b.pre
}

/// Whether `c` may appear in pre-release or build metadata: an ASCII letter
/// or digit, `-` or `.`.
pub open spec fn is_ident_char(c: char) -> bool {
    let u = c as u32;
    ||| 48 <= u <= 57
    ||| 65 <= u <= 90
    ||| 97 <= u <= 122
    ||| u == 45
    ||| u == 46
}

/// Whether every character of `s` may appear in pre-release or build metadata.
pub open spec fn ident_text(s: Seq<char>) -> bool {
    forall|i: int| 0 <= i < s.len() ==> is_ident_char(#[trigger] s[i])
}

/// What every version that `semver::Version::parse` produces satisfies: its
/// text reads back as the same version, and its pre-release and build
/// metadata hold only identifier characters.
pub open spec fn is_valid_version(v: VersionView) -> bool {
    &&& semver_parse_result(version_text(v)) == Ok::<VersionView, Seq<char>>(v)
    &&& ident_text(v.pre)
    &&& ident_text(v.build)
}

/// A SemVer version of the dsh package, as plain values.
#[derive(Debug)]
pub struct DshVersion {
    major: u64,
    minor: u64,
    patch: u64,
    pre: String,
    build: String,
}

impl View for DshVersion {
    type V = VersionView;

    closed spec fn view(&self) -> VersionView {
        VersionView {
            major: self.major,
            minor: self.minor,
            patch: self.patch,
            pre: self.pre@,
            build: self.build@,
        }
    }
}

impl DshVersion {
    /// Every value of this type is one that `semver` parsed.
    #[verifier::type_invariant]
    closed spec fn parsed(self) -> bool {
        is_valid_version(self@)
    }

    /// A copy of this version.
    pub fn duplicate(&self) -> (r: DshVersion)
        ensures
            r@ == self@,
    {
        proof {
            use_type_invariant(self);
        }
        DshVersion {
            major: self.major,
            minor: self.minor,
            patch: self.patch,
            pre: self.pre.clone(),
            build: self.build.clone(),
        }
    }
}

/// Calls `semver::Version::parse` on `text`. Claimed: the result is the
/// version or error text that the name `semver_parse_result` gives for `text`;
/// a parsed version is carried over field by field, its pre-release and build
/// metadata as their text, and an error as its `Display` text. Also claimed of
/// a parsed version, as `semver`'s parser shows: its pre-release and build
/// metadata hold only ASCII letters, digits, `-` and `.`, and parsing the
/// text `major.minor.patch[-pre][+build]` written for it (numbers in decimal
/// without leading zeros, which the parser requires anyway) gives it back.
#[verifier::external_body]
fn semver_parse(text: &str) -> (r: Result<DshVersion, String>)
    ensures
        match r {
            Ok(v) => semver_parse_result(text@) == Ok::<VersionView, Seq<char>>(v@),
            Err(e) => semver_parse_result(text@) == Err::<VersionView, Seq<char>>(e@),
        },
        r matches Ok(v) ==> is_valid_version(v@),
{
    match semver::Version::parse(text) {
        Ok(v) => Ok(DshVersion {
            major: v.major,
            minor: v.minor,
            patch: v.patch,
            pre: v.pre.as_str().to_string(),
            build: v.build.as_str().to_string(),
        }),
        Err(e) => Err(e.to_string()),
    }
}

/// Compares the precedence of the two versions with `semver`'s
/// `Version::cmp_precedence`, on `semver::Version`s rebuilt from the numbers
/// and pre-release text (build metadata is left empty, as that comparison
/// ignores it). Claimed: the result (whether `a` comes first) is
/// `semver_precedes(a, b)`; since `semver` compares the numbers, then the
/// pre-release with a total order in which only equal texts compare equal,
/// versions of the same precedence do not come first, the order is
/// asymmetric, of two versions of different precedence one comes first, and
/// it is transitive. Both versions came from `semver::Version::parse`, so
/// rebuilding their pre-release from text succeeds.
#[verifier::external_body]
fn semver_lt(a: &DshVersion, b: &DshVersion) -> (r: bool)
    requires
        is_valid_version(a@),
        is_valid_version(b@),
    ensures
        r == semver_precedes(a@, b@),
        same_precedence(a@, b@) ==> !r,
        r ==> !semver_precedes(b@, a@),
        !r && !same_precedence(a@, b@) ==> semver_precedes(b@, a@),
        forall|c: VersionView|
            is_valid_version(c) && r && #[trigger] semver_precedes(b@, c) ==> semver_precedes(a@, c),
{
    let mut lhs = semver::Version::new(a.major, a.minor, a.patch);
    lhs.pre = semver::Prerelease::new(&a.pre).unwrap();
    let mut rhs = semver::Version::new(b.major, b.minor, b.patch);
    rhs.pre = semver::Prerelease::new(&b.pre).unwrap();
    lhs.cmp_precedence(&rhs).is_lt()
}

/// The text of a version as `semver` displays it:
/// `major.minor.patch`, then `-pre` and `+build` when present.
pub open spec fn version_text(v: VersionView) -> Seq<char> {
    let core = decimal(v.major as nat) + seq!['.'] + decimal(v.minor as nat) + seq!['.'] + decimal(
        v.patch as nat,
    );
    let with_pre = if v.pre.len() > 0 {
        core + seq!['-'] + v.pre
    } else {
        core
    };
    if v.build.len() > 0 {
        with_pre + seq!['+'] + v.build
    } else {
        with_pre
    }
}

impl DshVersion {
    /// The version's text (what `Display` writes for a `semver::Version`),
    /// which reads back as the same version.
    pub fn to_string(&self) -> (r: String)
        ensures
            r@ == version_text(self@),
            dsh_version_of(r@) == Ok::<VersionView, Seq<char>>(self@),
    {
        proof {
            use_type_invariant(self);
            lemma_version_text_reads_back(self@);
            reveal_strlit(".");
            reveal_strlit("-");
            reveal_strlit("+");
        }
        let mut s = decimal_string(self.major);
        s.append(".");
        s.append(decimal_string(self.minor).as_str());
        s.append(".");
        s.append(decimal_string(self.patch).as_str());
        if self.pre.as_str().unicode_len() > 0 {
            s.append("-");
            s.append(self.pre.as_str());
        }
        if self.build.as_str().unicode_len() > 0 {
            s.append("+");
            s.append(self.build.as_str());
        }
        s
    }
}

/// The text that is handed to `semver` for a raw version string: surrounding
/// white space, then double quotes, then single quotes, then leading `v`s
/// removed.
pub open spec fn normalized_version(raw: Seq<char>) -> Seq<char> {
    strip_start(
        strip_both(strip_both(trim_ws(raw), is_char('"')), is_char('\'')),
        is_char('v'),
    )
}

/// The message for a raw version string that is not a SemVer version.
pub open spec fn invalid_version_message(raw: Seq<char>, err: Seq<char>) -> Seq<char> {
    "无效的 dsh 版本号“"@ + raw + "”："@ + err
}

/// What `parse_dsh_version` gives for `raw`.
pub open spec fn dsh_version_of(raw: Seq<char>) -> Result<VersionView, Seq<char>> {
    match semver_parse_result(normalized_version(raw)) {
        Ok(v) => Ok(v),
        Err(e) => Err(invalid_version_message(raw, e)),
    }
}

/// The text of a raw version string that is handed to `semver`: surrounding
/// white space, double quotes and single quotes, then leading `v`s removed.
pub fn normalize_version_text<'a>(raw: &'a str) -> (r: &'a str)
    ensures
        r@ == normalized_version(raw@),
{
    let t = trim(raw);
    let t = trim_class(t, &CharClass::Exactly('"'));
    let t = trim_class(t, &CharClass::Exactly('\''));
    trim_start_class(t, &CharClass::Exactly('v'))
}

/// The outcome of reading `raw` as a dsh version, given what `semver` made of
/// its normalized text: the version, or the error message that quotes `raw`.
pub fn version_outcome(raw: &str, parsed: Result<DshVersion, String>) -> (r: Result<DshVersion, String>)
    ensures
        match parsed {
            Ok(v) => r matches Ok(w) && w@ == v@,
            Err(e) => r matches Err(m) && m@ == invalid_version_message(raw@, e@) && m@
                == "无效的 dsh 版本号“"@ + raw@ + "”："@ + e@,
        },
{
    match parsed {
        Ok(v) => Ok(v),
        Err(e) => {
            let mut msg = String::from_str("无效的 dsh 版本号“");
            msg.append(raw);
            msg.append("”：");
            msg.append(e.as_str());
            Err(msg)
        },
    }
}

/// Reads a dsh version from text such as `v1.2.3`, `"1.0.0-rc.2"` or
/// `'0.1.1'` (quotes, white space and a `v` prefix are tolerated).
pub fn parse_dsh_version(raw: &str) -> (r: Result<DshVersion, String>)
    ensures
        match r {
            Ok(v) => dsh_version_of(raw@) == Ok::<VersionView, Seq<char>>(v@),
            Err(e) => dsh_version_of(raw@) == Err::<VersionView, Seq<char>>(e@),
        },
        match semver_parse_result(
            strip_start(
                strip_both(strip_both(trim_ws(raw@), is_char('"')), is_char('\'')),
                is_char('v'),
            ),
        ) {
            Ok(v) => r matches Ok(w) && w@ == v,
            Err(e) => r matches Err(m) && m@ == "无效的 dsh 版本号“"@ + raw@ + "”："@ + e,
        },
{
    version_outcome(raw, semver_parse(normalize_version_text(raw)))
}

/// Whether `latest` is a newer release than `installed` by SemVer precedence
/// (build metadata is ignored).
pub fn update_available(latest: &DshVersion, installed: &DshVersion) -> (r: bool)
    ensures
        r == semver_precedes(installed@, latest@),
        same_precedence(installed@, latest@) ==> !r,
        r ==> !semver_precedes(latest@, installed@),
        !r && !same_precedence(installed@, latest@) ==> semver_precedes(latest@, installed@),
{
    proof {
        use_type_invariant(latest);
        use_type_invariant(installed);
    }
    semver_lt(installed, latest)
}

/// Whether `a` comes strictly before `b` by SemVer precedence (build
/// metadata is ignored).
pub fn version_less(a: &DshVersion, b: &DshVersion) -> (r: bool)
    ensures
        r == semver_precedes(a@, b@),
        same_precedence(a@, b@) ==> !r,
        r ==> !semver_precedes(b@, a@),
        !r && !same_precedence(a@, b@) ==> semver_precedes(b@, a@),
{
    proof {
        use_type_invariant(a);
        use_type_invariant(b);
    }
    semver_lt(a, b)
}

proof fn lemma_decimal_shape(n: nat)
    ensures
        decimal(n).len() > 0,
        is_digit(decimal(n)[0]),
        is_digit(decimal(n).last()),
    decreases n,
{
    if n >= 10 {
        lemma_decimal_shape(n / 10);
    }
}

proof fn lemma_version_text_shape(v: VersionView)
    requires
        ident_text(v.pre),
        ident_text(v.build),
    ensures
        version_text(v).len() > 0,
        is_digit(version_text(v)[0]),
        is_ident_char(version_text(v).last()),
{
    lemma_decimal_shape(v.major as nat);
    lemma_decimal_shape(v.patch as nat);
    let core = decimal(v.major as nat) + seq!['.'] + decimal(v.minor as nat) + seq!['.'] + decimal(
        v.patch as nat,
    );
    assert(core[0] == decimal(v.major as nat)[0]);
    assert(core.last() == decimal(v.patch as nat).last());
    let with_pre = if v.pre.len() > 0 {
        core + seq!['-'] + v.pre
    } else {
        core
    };
    assert(with_pre[0] == core[0]);
    if v.pre.len() > 0 {
        assert(with_pre.last() == v.pre[v.pre.len() - 1]);
    }
    assert(is_ident_char(with_pre.last()));
    if v.build.len() > 0 {
        let t = with_pre + seq!['+'] + v.build;
        assert(t[0] == with_pre[0]);
        assert(t.last() == v.build[v.build.len() - 1]);
    }
}

proof fn lemma_plain_text_is_normal(t: Seq<char>)
    requires
        t.len() > 0,
        is_digit(t[0]),
        is_ident_char(t.last()),
    ensures
        normalized_version(t) == t,
        strip_start(t, is_char('v')) == t,
{
    assert(strip_start(t, white_space()) == t);
    assert(strip_end(t, white_space()) == t);
    assert(strip_start(t, is_char('"')) == t);
    assert(strip_end(t, is_char('"')) == t);
    assert(strip_start(t, is_char('\'')) == t);
    assert(strip_end(t, is_char('\'')) == t);
    assert(strip_start(t, is_char('v')) == t);
}

/// A dsh version reads back from its own text, also with a `v` in front, in
/// double quotes with white space around, or in single quotes with a `v`.
pub proof fn lemma_version_text_reads_back(v: VersionView)
    requires
        is_valid_version(v),
    ensures
        dsh_version_of(version_text(v)) == Ok::<VersionView, Seq<char>>(v),
        dsh_version_of(seq!['v'] + version_text(v)) == Ok::<VersionView, Seq<char>>(v),
        dsh_version_of(seq![' ', '"'] + version_text(v) + seq!['"', '\n']) == Ok::<
            VersionView,
            Seq<char>,
        >(v),
        dsh_version_of(seq!['\'', 'v'] + version_text(v) + seq!['\'']) == Ok::<VersionView, Seq<char>>(
            v,
        ),
{
    let t = version_text(v);
    lemma_version_text_shape(v);
    lemma_plain_text_is_normal(t);

    let a = seq!['v'] + t;
    assert(a.last() == t.last());
    assert(strip_start(a, white_space()) == a);
    assert(strip_end(a, white_space()) == a);
    assert(strip_start(a, is_char('"')) == a);
    assert(strip_end(a, is_char('"')) == a);
    assert(strip_start(a, is_char('\'')) == a);
    assert(strip_end(a, is_char('\'')) == a);
    assert(a.drop_first() =~= t);
    assert(strip_start(a, is_char('v')) == t);
    assert(normalized_version(a) == t);

    let q = seq!['"'] + t + seq!['"'];
    let b = seq![' '] + q + seq!['\n'];
    assert(b =~= seq![' ', '"'] + t + seq!['"', '\n']);
    let b1 = q + seq!['\n'];
    assert(b.drop_first() =~= b1);
    assert(strip_start(b1, white_space()) == b1);
    assert(strip_start(b, white_space()) == b1);
    assert(b1.drop_last() =~= q);
    assert(strip_end(q, white_space()) == q);
    assert(strip_end(b1, white_space()) == q);
    let q1 = t + seq!['"'];
    assert(q.drop_first() =~= q1);
    assert(q1[0] == t[0]);
    assert(strip_start(q1, is_char('"')) == q1);
    assert(strip_start(q, is_char('"')) == q1);
    assert(q1.drop_last() =~= t);
    assert(strip_end(q1, is_char('"')) == t);
    assert(normalized_version(b) == t);

    let sq = seq!['\''] + a + seq!['\''];
    assert(sq =~= seq!['\'', 'v'] + t + seq!['\'']);
    assert(strip_start(sq, white_space()) == sq);
    assert(strip_end(sq, white_space()) == sq);
    assert(strip_start(sq, is_char('"')) == sq);
    assert(strip_end(sq, is_char('"')) == sq);
    let sq1 = a + seq!['\''];
    assert(sq.drop_first() =~= sq1);
    assert(sq1[0] == 'v');
    assert(strip_start(sq1, is_char('\'')) == sq1);
    assert(strip_start(sq, is_char('\'')) == sq1);
    assert(sq1.drop_last() =~= a);
    assert(strip_end(a, is_char('\'')) == a);
    assert(strip_end(sq1, is_char('\'')) == a);
    assert(normalized_version(sq) == t);
}

} // verus!
