use vstd::prelude::*;
use crate::level::{Level, eq_ignore_case, lower_code, spec_level_of, level_from_str};

verus! {

/// A module-name / level override drawn from the filter spec.
#[derive(Debug, Clone)]
pub struct Directive {
    pub name: String,
    pub level: Level,
}

impl View for Directive {
    type V = (Seq<char>, Level);

    open spec fn view(&self) -> (Seq<char>, Level) {
        (self.name@, self.level)
    }
}

/// `c` is a Unicode whitespace character, as `str::trim` removes them.
pub open spec fn is_space(c: char) -> bool {
    let u = c as int;
    (9 <= u && u <= 13) || u == 32 || u == 0x85 || u == 0xa0 || u == 0x1680 || (0x2000 <= u
        && u <= 0x200a) || u == 0x2028 || u == 0x2029 || u == 0x202f || u == 0x205f || u == 0x3000
}

fn is_space_x(c: char) -> (r: bool)
    ensures
        r == is_space(c),
{
    let u = c as u32;
    (9 <= u && u <= 13) || u == 32 || u == 0x85 || u == 0xa0 || u == 0x1680 || (0x2000 <= u
        && u <= 0x200a) || u == 0x2028 || u == 0x2029 || u == 0x202f || u == 0x205f || u == 0x3000
}

/// `s` without its leading whitespace.
pub open spec fn trim_front(s: Seq<char>) -> Seq<char>
    decreases s.len(),
{
    if s.len() > 0 && is_space(s[0]) {
        trim_front(s.drop_first())
    } else {
        s
    }
}

/// `s` without its trailing whitespace.
pub open spec fn trim_back(s: Seq<char>) -> Seq<char>
    decreases s.len(),
{
    if s.len() > 0 && is_space(s.last()) {
        trim_back(s.drop_last())
    } else {
        s
    }
}

/// `s` without leading and trailing whitespace, as `str::trim` returns it.
pub open spec fn trim_spec(s: Seq<char>) -> Seq<char> {
    trim_back(trim_front(s))
}

proof fn lemma_trim_front_skip(s: Seq<char>, a: int)
    requires
        0 <= a <= s.len(),
        forall|j: int| 0 <= j < a ==> is_space(s[j]),
        a == s.len() || !is_space(s[a]),
    ensures
        trim_front(s) == s.skip(a),
    decreases a,
{
    if a == 0 {
        assert(s.skip(0) =~= s);
    } else {
        lemma_trim_front_skip(s.drop_first(), a - 1);
        assert(s.drop_first().skip(a - 1) =~= s.skip(a));
    }
}

proof fn lemma_trim_back_take(s: Seq<char>, b: int)
    requires
        0 <= b <= s.len(),
        forall|j: int| b <= j < s.len() ==> is_space(s[j]),
        b == 0 || !is_space(s[b - 1]),
    ensures
        trim_back(s) == s.take(b),
    decreases s.len(),
{
    if b == s.len() {
        assert(s.take(b) =~= s);
    } else {
        assert(is_space(s.last()));
        lemma_trim_back_take(s.drop_last(), b);
        assert(s.drop_last().take(b) =~= s.take(b));
    }
}

/// Remove leading and trailing whitespace, as `str::trim` does.
pub fn trim_str<'a>(s: &'a str) -> (r: &'a str)
    ensures
        r@ == trim_spec(s@),
{
    let n = s.unicode_len();
    let mut a: usize = 0;
    while a < n && is_space_x(s.get_char(a))
        invariant
            n == s@.len(),
            a <= n,
            forall|j: int| 0 <= j < a ==> is_space(s@[j]),
        decreases n - a,
    {
        a += 1;
    }
    let mut b: usize = n;
    while b > a && is_space_x(s.get_char(b - 1))
        invariant
            n == s@.len(),
            a <= b <= n,
            forall|j: int| b <= j < n ==> is_space(s@[j]),
        decreases b,
    {
        b -= 1;
    }
    proof {
        lemma_trim_front_skip(s@, a as int);
        lemma_trim_back_take(s@.skip(a as int), b - a);
        assert(s@.skip(a as int).take(b - a) =~= s@.subrange(a as int, b as int));
    }
    s.substring_char(a, b)
}

/// The pieces of `s` between occurrences of `sep`, in order; one more piece
/// than there are separators, so never empty.
pub open spec fn split_on(s: Seq<char>, sep: char) -> Seq<Seq<char>>
    decreases s.len(),
{
    if s.len() == 0 {
        seq![Seq::<char>::empty()]
    } else if s[0] == sep {
        seq![Seq::<char>::empty()] + split_on(s.drop_first(), sep)
    } else {
        let rest = split_on(s.drop_first(), sep);
        seq![seq![s[0]] + rest[0]] + rest.drop_first()
    }
}

pub proof fn lemma_split_len(s: Seq<char>, sep: char)
    ensures
        split_on(s, sep).len() >= 1,
    decreases s.len(),
{
    if s.len() > 0 {
        lemma_split_len(s.drop_first(), sep);
    }
}

pub proof fn lemma_split_no_sep(s: Seq<char>, sep: char)
    requires
        !s.contains(sep),
    ensures
        split_on(s, sep) == seq![s],
    decreases s.len(),
{
    if s.len() == 0 {
        assert(split_on(s, sep) =~~= seq![s]);
    } else {
        assert(s[0] != sep);
        assert(forall|j: int| 0 <= j < s.drop_first().len() ==> s.drop_first()[j] == s[j + 1]);
        assert(!s.drop_first().contains(sep));
        lemma_split_no_sep(s.drop_first(), sep);
        assert(seq![s[0]] + s.drop_first() =~= s);
        assert(split_on(s, sep) =~~= seq![s]);
    }
}

pub proof fn lemma_split_concat(u: Seq<char>, v: Seq<char>, sep: char)
    ensures
        split_on(u + seq![sep] + v, sep) == split_on(u, sep) + split_on(v, sep),
    decreases u.len(),
{
    let s = u + seq![sep] + v;
    if u.len() == 0 {
        assert(s[0] == sep);
        assert(s.drop_first() =~= v);
        assert(split_on(u, sep) =~= seq![Seq::<char>::empty()]);
        assert(split_on(s, sep) =~= split_on(u, sep) + split_on(v, sep));
    } else {
        lemma_split_concat(u.drop_first(), v, sep);
        assert(s[0] == u[0]);
        assert(s.drop_first() =~= u.drop_first() + seq![sep] + v);
        if u[0] == sep {
            assert(split_on(s, sep) =~= split_on(u, sep) + split_on(v, sep));
        } else {
            let ru = split_on(u.drop_first(), sep);
            let rs = split_on(s.drop_first(), sep);
            lemma_split_len(u.drop_first(), sep);
            assert(rs =~= ru + split_on(v, sep));
            assert(rs[0] == ru[0]);
            assert(rs.drop_first() =~= ru.drop_first() + split_on(v, sep));
            assert(split_on(u, sep) =~= seq![seq![u[0]] + ru[0]] + ru.drop_first());
            assert(split_on(s, sep) =~= seq![seq![s[0]] + rs[0]] + rs.drop_first());
            assert(split_on(s, sep) =~= split_on(u, sep) + split_on(v, sep));
        }
    }
}

/// Split `s` on every occurrence of `sep`, as `str::split` yields the pieces.
pub fn split_str(s: &str, sep: char) -> (parts: Vec<String>)
    ensures
        parts@.map_values(|p: String| p@) == split_on(s@, sep),
{
    let n = s.unicode_len();
    let mut parts: Vec<String> = Vec::new();
    let mut start: usize = 0;
    let mut i: usize = 0;
    proof {
        assert(s@.skip(0) =~= s@);
        assert(parts@.map_values(|p: String| p@) =~= Seq::<Seq<char>>::empty());
        assert(Seq::<Seq<char>>::empty() + split_on(s@, sep) =~= split_on(s@, sep));
    }
    while i < n
        invariant
            n == s@.len(),
            start <= i <= n,
            forall|j: int| start <= j < i ==> s@[j] != sep,
            split_on(s@, sep) == parts@.map_values(|p: String| p@) + split_on(
                s@.skip(start as int),
                sep,
            ),
        decreases n - i,
    {
        if s.get_char(i) == sep {
            let piece = s.substring_char(start, i).to_owned();
            proof {
                let u = s@.subrange(start as int, i as int);
                let v = s@.skip(i as int + 1);
                assert(s@.skip(start as int) =~= u + seq![sep] + v);
                assert(!u.contains(sep));
                lemma_split_no_sep(u, sep);
                lemma_split_concat(u, v, sep);
                assert((parts@.push(piece)).map_values(|p: String| p@) =~= parts@.map_values(
                    |p: String| p@,
                ).push(piece@));
                assert(parts@.map_values(|p: String| p@).push(u) + split_on(v, sep)
                    =~= parts@.map_values(|p: String| p@) + (seq![u] + split_on(v, sep)));
            }
            parts.push(piece);
            start = i + 1;
        }
        i += 1;
    }
    let piece = s.substring_char(start, n).to_owned();
    proof {
        let u = s@.subrange(start as int, n as int);
        assert(s@.skip(start as int) =~= u);
        assert(!u.contains(sep));
        lemma_split_no_sep(u, sep);
        assert((parts@.push(piece)).map_values(|p: String| p@) =~= parts@.map_values(
            |p: String| p@,
        ).push(piece@));
        assert(parts@.map_values(|p: String| p@).push(u) =~= parts@.map_values(|p: String| p@)
            + seq![u]);
    }
    parts.push(piece);
    parts
}

/// Mathematical view of what one comma-separated entry resolves to.
pub enum EntryOutcomeV {
    /// The entry contributes a directive.
    Keep((Seq<char>, Level)),
    /// Skipped with an advisory warning: a bare level name, with no module
    /// it could apply to.
    WarnBareLevel(Seq<char>),
    /// Skipped with an advisory warning: the level field names no level.
    WarnInvalidLevel(Seq<char>),
    /// Skipped with an advisory warning: three or more `=`-separated fields.
    WarnMalformed(Seq<char>),
    /// Silently dropped: an empty entry, or a module name that is empty
    /// after trimming.
    Dropped,
}

/// Keep a directive only when its module name is not all whitespace.
pub open spec fn keep_or_drop(name: Seq<char>, level: Level) -> EntryOutcomeV {
    if trim_spec(name).len() == 0 {
        EntryOutcomeV::Dropped
    } else {
        EntryOutcomeV::Keep((name, level))
    }
}

/// What one comma-separated entry resolves to. One field that names a level
/// is a bare level; one that does not is a module name at `Info`. Of two
/// fields, the second is trimmed and read as the level: empty means `Info`,
/// a level name means that level, anything else is invalid. More fields are
/// malformed. A kept entry still needs a module name that is not all
/// whitespace.
pub open spec fn entry_outcome(e: Seq<char>) -> EntryOutcomeV {
    let fields = split_on(e, '=');
    if fields.len() == 1 {
        if spec_level_of(fields[0]) is Some {
            EntryOutcomeV::WarnBareLevel(fields[0])
        } else {
            keep_or_drop(fields[0], Level::Info)
        }
    } else if fields.len() == 2 {
        let lv = trim_spec(fields[1]);
        if lv.len() == 0 {
            keep_or_drop(fields[0], Level::Info)
        } else {
            match spec_level_of(lv) {
                Some(l) => keep_or_drop(fields[0], l),
                None => EntryOutcomeV::WarnInvalidLevel(lv),
            }
        }
    } else {
        EntryOutcomeV::WarnMalformed(e)
    }
}

/// The directive that one comma-separated entry resolves to, or `None` where
/// the entry is skipped, with or without a warning.
pub open spec fn entry_directive(e: Seq<char>) -> Option<(Seq<char>, Level)> {
    match entry_outcome(e) {
        EntryOutcomeV::Keep(d) => Some(d),
        _ => None,
    }
}

/// The directives of a sequence of entries, in order, skipped entries left out.
pub open spec fn collect_directives(entries: Seq<Seq<char>>) -> Seq<(Seq<char>, Level)>
    decreases entries.len(),
{
    if entries.len() == 0 {
        Seq::empty()
    } else {
        match entry_directive(entries[0]) {
            Some(d) => seq![d] + collect_directives(entries.drop_first()),
            None => collect_directives(entries.drop_first()),
        }
    }
}

/// The directives that a whole filter spec resolves to.
pub open spec fn directives_of(s: Seq<char>) -> Seq<(Seq<char>, Level)> {
    collect_directives(split_on(s, ','))
}

/// What one comma-separated entry resolves to: a directive, a skip with an
/// advisory warning carrying the offending text, or a silent drop.
pub enum EntryOutcome {
    Keep(Directive),
    WarnBareLevel(String),
    WarnInvalidLevel(String),
    WarnMalformed(String),
    Dropped,
}

impl View for EntryOutcome {
    type V = EntryOutcomeV;

    open spec fn view(&self) -> EntryOutcomeV {
        match self {
            EntryOutcome::Keep(d) => EntryOutcomeV::Keep(d@),
            EntryOutcome::WarnBareLevel(t) => EntryOutcomeV::WarnBareLevel(t@),
            EntryOutcome::WarnInvalidLevel(t) => EntryOutcomeV::WarnInvalidLevel(t@),
            EntryOutcome::WarnMalformed(t) => EntryOutcomeV::WarnMalformed(t@),
            EntryOutcome::Dropped => EntryOutcomeV::Dropped,
        }
    }
}

fn keep_or_drop_x(name: String, level: Level) -> (r: EntryOutcome)
    ensures
        r@ == keep_or_drop(name@, level),
{
    let t = trim_str(name.as_str());
    if t.unicode_len() == 0 {
        EntryOutcome::Dropped
    } else {
        EntryOutcome::Keep(Directive { name, level })
    }
}

/// Resolve one comma-separated entry of the filter spec.
pub fn parse_entry(e: &str) -> (r: EntryOutcome)
    ensures
        r@ == entry_outcome(e@),
{
    let fields = split_str(e, '=');
    proof {
        lemma_split_len(e@, '=');
    }
    if fields.len() == 1 {
        if level_from_str(fields[0].as_str()).is_some() {
            EntryOutcome::WarnBareLevel(fields[0].clone())
        } else {
            keep_or_drop_x(fields[0].clone(), Level::Info)
        }
    } else if fields.len() == 2 {
        let lv = trim_str(fields[1].as_str());
        if lv.unicode_len() == 0 {
            keep_or_drop_x(fields[0].clone(), Level::Info)
        } else {
            match level_from_str(lv) {
                Some(l) => keep_or_drop_x(fields[0].clone(), l),
                None => EntryOutcome::WarnInvalidLevel(lv.to_owned()),
            }
        }
    } else {
        EntryOutcome::WarnMalformed(e.to_owned())
    }
}

/// Parse a comma-separated filter spec such as
/// `crate1,crate2::mod=debug,crate3::mod=trace` into its directives.
pub fn parse_env(env: &str) -> (r: Vec<Directive>)
    ensures
        r@.map_values(|d: Directive| d@) == directives_of(env@),
{
    let entries = split_str(env, ',');
    let ghost es = entries@.map_values(|p: String| p@);
    let mut out: Vec<Directive> = Vec::new();
    let mut k: usize = 0;
    proof {
        assert(es.skip(0) =~= es);
        assert(out@.map_values(|d: Directive| d@) =~= Seq::<(Seq<char>, Level)>::empty());
        assert(Seq::<(Seq<char>, Level)>::empty() + collect_directives(es)
            =~= collect_directives(es));
    }
    while k < entries.len()
        invariant
            k <= entries.len(),
            es == entries@.map_values(|p: String| p@),
            es == split_on(env@, ','),
            directives_of(env@) == out@.map_values(|d: Directive| d@) + collect_directives(
                es.skip(k as int),
            ),
        decreases entries.len() - k,
    {
        let r = parse_entry(entries[k].as_str());
        proof {
            assert(es.skip(k as int).len() > 0);
            assert(es.skip(k as int)[0] == es[k as int]);
            assert(es.skip(k as int).drop_first() =~= es.skip(k as int + 1));
            assert(es[k as int] == entries@[k as int]@);
        }
        match r {
            EntryOutcome::Keep(d) => {
                proof {
                    assert(entry_directive(es[k as int]) == Some(d@));
                    assert((out@.push(d)).map_values(|x: Directive| x@) =~= out@.map_values(
                        |x: Directive| x@,
                    ).push(d@));
                    assert(out@.map_values(|x: Directive| x@).push(d@) + collect_directives(
                        es.skip(k as int + 1),
                    ) =~= out@.map_values(|x: Directive| x@) + (seq![d@] + collect_directives(
                        es.skip(k as int + 1),
                    )));
                }
                out.push(d);
            },
            _ => {
                proof {
                    assert(entry_directive(es[k as int]) is None);
                }
            },
        }
        k += 1;
    }
    proof {
        assert(es.skip(entries@.len() as int) =~= Seq::<Seq<char>>::empty());
        assert(out@.map_values(|d: Directive| d@) + Seq::<(Seq<char>, Level)>::empty()
            =~= out@.map_values(|d: Directive| d@));
    }
    out
}

/// The outcome of every entry of a sequence, in order.
pub open spec fn map_outcomes(entries: Seq<Seq<char>>) -> Seq<EntryOutcomeV> {
    entries.map_values(|e: Seq<char>| entry_outcome(e))
}

/// The outcome of every entry of a whole filter spec, in order.
pub open spec fn outcomes_of(s: Seq<char>) -> Seq<EntryOutcomeV> {
    map_outcomes(split_on(s, ','))
}

/// Resolve every comma-separated entry of a filter spec, keeping the skipped
/// entries and their warning kinds; `parse_env` keeps the directives alone.
pub fn parse_env_outcomes(env: &str) -> (r: Vec<EntryOutcome>)
    ensures
        r@.map_values(|o: EntryOutcome| o@) == outcomes_of(env@),
{
    let entries = split_str(env, ',');
    let ghost es = entries@.map_values(|p: String| p@);
    let mut out: Vec<EntryOutcome> = Vec::new();
    let mut k: usize = 0;
    proof {
        assert(out@.map_values(|o: EntryOutcome| o@) =~= map_outcomes(es.take(0)));
    }
    while k < entries.len()
        invariant
            k <= entries@.len(),
            es == entries@.map_values(|p: String| p@),
            es == split_on(env@, ','),
            out@.map_values(|o: EntryOutcome| o@) == map_outcomes(es.take(k as int)),
        decreases entries@.len() - k,
    {
        let o = parse_entry(entries[k].as_str());
        proof {
            assert(es[k as int] == entries@[k as int]@);
            assert((out@.push(o)).map_values(|x: EntryOutcome| x@) =~= out@.map_values(
                |x: EntryOutcome| x@,
            ).push(o@));
            assert(map_outcomes(es.take(k as int + 1)) =~= map_outcomes(es.take(k as int)).push(
                entry_outcome(es[k as int]),
            ));
        }
        out.push(o);
        k += 1;
    }
    proof {
        assert(es.take(entries@.len() as int) =~= es);
    }
    out
}

/// A level name starts and ends with a letter, so trimming leaves it
/// unchanged.
proof fn lemma_level_name_trims(s: Seq<char>)
    requires
        spec_level_of(s) is Some,
    ensures
        trim_spec(s) == s,
        s.len() > 0,
{
    reveal_strlit("off");
    reveal_strlit("error");
    reveal_strlit("warn");
    reveal_strlit("info");
    reveal_strlit("debug");
    reveal_strlit("trace");
    if eq_ignore_case(s, "off"@) {
        assert(lower_code(s[0]) == lower_code("off"@[0]));
        assert(lower_code(s.last()) == lower_code("off"@[2]));
    } else if eq_ignore_case(s, "error"@) {
        assert(lower_code(s[0]) == lower_code("error"@[0]));
        assert(lower_code(s.last()) == lower_code("error"@[4]));
    } else if eq_ignore_case(s, "warn"@) {
        assert(lower_code(s[0]) == lower_code("warn"@[0]));
        assert(lower_code(s.last()) == lower_code("warn"@[3]));
    } else if eq_ignore_case(s, "info"@) {
        assert(lower_code(s[0]) == lower_code("info"@[0]));
        assert(lower_code(s.last()) == lower_code("info"@[3]));
    } else if eq_ignore_case(s, "debug"@) {
        assert(lower_code(s[0]) == lower_code("debug"@[0]));
        assert(lower_code(s.last()) == lower_code("debug"@[4]));
    } else {
        assert(eq_ignore_case(s, "trace"@));
        assert(lower_code(s[0]) == lower_code("trace"@[0]));
        assert(lower_code(s.last()) == lower_code("trace"@[4]));
    }
    assert(!is_space(s[0]));
    assert(!is_space(s.last()));
}

/// For every valid single-directive spec `<name>=<level>` whose fields hold
/// no separator, parsing yields exactly one directive: the module name with
/// the level that the case-insensitive level name names.
pub proof fn lemma_parse_single_directive(name: Seq<char>, lvl: Seq<char>, l: Level)
    requires
        !name.contains(','),
        !name.contains('='),
        !lvl.contains(','),
        !lvl.contains('='),
        spec_level_of(lvl) == Some(l),
        trim_spec(name).len() != 0,
    ensures
        directives_of(name + seq!['='] + lvl) == seq![(name, l)],
{
    let s = name + seq!['='] + lvl;
    assert forall|i: int| 0 <= i < s.len() implies s[i] != ',' by {
        if i < name.len() {
            if s[i] == ',' {
                assert(name[i] == ',');
                assert(name.contains(','));
            }
        } else if i == name.len() {
            assert(s[i] == '=');
        } else {
            if s[i] == ',' {
                assert(lvl[i - name.len() - 1] == ',');
                assert(lvl.contains(','));
            }
        }
    }
    if s.contains(',') {
        let i = choose|i: int| 0 <= i < s.len() && s[i] == ',';
        assert(s[i] != ',');
    }
    lemma_split_no_sep(s, ',');
    lemma_split_concat(name, lvl, '=');
    lemma_split_no_sep(name, '=');
    lemma_split_no_sep(lvl, '=');
    let fields = split_on(s, '=');
    assert(fields =~~= seq![name, lvl]);
    lemma_level_name_trims(lvl);
    assert(entry_directive(s) == Some((name, l)));
    let entries = split_on(s, ',');
    assert(entries == seq![s]);
    assert(entries.len() == 1 && entries[0] == s);
    assert(collect_directives(entries) == seq![(name, l)] + collect_directives(
        entries.drop_first(),
    ));
    assert(entries.drop_first() =~= Seq::<Seq<char>>::empty());
    assert(collect_directives(Seq::<Seq<char>>::empty()) == Seq::<(Seq<char>, Level)>::empty());
    assert(seq![(name, l)] + Seq::<(Seq<char>, Level)>::empty() =~= seq![(name, l)]);
}

} // verus!
