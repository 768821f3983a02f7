use vstd::prelude::*;

use crate::providers::{local_provider_id, LocalProvider};
use crate::string_map::{
    distinct_keys, entries_map, insert_all, lemma_entries_map_is_insert_all, StringMap,
};
use crate::text::str_eq;

verus! {

/// Why the project environment could not be read.
#[derive(Debug, PartialEq, Eq)]
pub enum EnvError {
    /// `ASTROPRESS_LOCAL_PROVIDER` names no known provider.
    UnknownLocalProvider(String),
}

/// The index of the first `c` in `s`, or `s.len()` when there is none.
pub open spec fn first_index(s: Seq<char>, c: char) -> nat
    decreases s.len(),
{
    if s.len() == 0 {
        0
    } else if s[0] == c {
        0
    } else {
        1 + first_index(s.drop_first(), c)
    }
}

/// The map after one line of an env file: a `KEY=VALUE` line sets `KEY`
/// (the text before the first `=`) to `VALUE` (the rest); empty lines,
/// comment lines starting with `#` and lines without `=` change nothing.
pub open spec fn apply_env_line(m: Map<Seq<char>, Seq<char>>, line: Seq<char>) -> Map<
    Seq<char>,
    Seq<char>,
> {
    let eq = first_index(line, '=');
    if line.len() == 0 || line[0] == '#' || eq >= line.len() {
        m
    } else {
        m.insert(line.take(eq as int), line.skip(eq as int + 1))
    }
}

/// The map built from the complete lines of `s`, and the unfinished last line.
pub open spec fn env_fold(s: Seq<char>) -> (Map<Seq<char>, Seq<char>>, Seq<char>)
    decreases s.len(),
{
    if s.len() == 0 {
        (Map::empty(), Seq::empty())
    } else {
        let (m, line) = env_fold(s.drop_last());
        if s.last() == '\n' {
            (apply_env_line(m, line), Seq::empty())
        } else {
            (m, line.push(s.last()))
        }
    }
}

/// The variables an env file sets, later lines winning.
pub open spec fn parse_env(s: Seq<char>) -> Map<Seq<char>, Seq<char>> {
    let (m, line) = env_fold(s);
    apply_env_line(m, line)
}

/// The key that names the local provider.
pub open spec fn local_provider_key() -> Seq<char> {
    "ASTROPRESS_LOCAL_PROVIDER"@
}

/// The key that names the deploy target.
pub open spec fn deploy_target_key() -> Seq<char> {
    "ASTROPRESS_DEPLOY_TARGET"@
}

/// The local provider the environment selects: the explicit choice if
/// any, else the provider the environment names, else SQLite.
pub open spec fn local_provider_from(
    env: Map<Seq<char>, Seq<char>>,
    explicit: Option<LocalProvider>,
) -> Result<LocalProvider, ()> {
    match explicit {
        Some(p) => Ok(p),
        None => if !env.contains_key(local_provider_key()) {
            Ok(LocalProvider::Sqlite)
        } else if env[local_provider_key()] == local_provider_id(LocalProvider::Sqlite) {
            Ok(LocalProvider::Sqlite)
        } else if env[local_provider_key()] == local_provider_id(LocalProvider::Supabase) {
            Ok(LocalProvider::Supabase)
        } else {
            Err(())
        },
    }
}

/// The view of an optional string slice.
pub open spec fn opt_str_view(o: Option<&str>) -> Option<Seq<char>> {
    match o {
        Some(s) => Some(s@),
        None => None,
    }
}

/// The deploy target a local provider suggests.
pub open spec fn default_deploy_target(p: LocalProvider) -> Seq<char> {
    match p {
        LocalProvider::Sqlite => "github-pages"@,
        LocalProvider::Supabase => "vercel"@,
    }
}

/// The deploy target: the explicit one if any, else the one the environment
/// names, else the one the local provider suggests.
pub open spec fn deploy_target_from(env: Map<Seq<char>, Seq<char>>, explicit: Option<Seq<char>>) -> Result<
    Seq<char>,
    (),
> {
    match explicit {
        Some(t) => Ok(t),
        None => if env.contains_key(deploy_target_key()) {
            Ok(env[deploy_target_key()])
        } else {
            match local_provider_from(env, None) {
                Ok(p) => Ok(default_deploy_target(p)),
                Err(()) => Err(()),
            }
        },
    }
}

proof fn lemma_first_index_is(s: Seq<char>, c: char, k: int)
    requires
        0 <= k <= s.len(),
        k < s.len() ==> s[k] == c,
        forall|j: int| 0 <= j < k ==> s[j] != c,
    ensures
        first_index(s, c) == k,
    decreases s.len(),
{
    if s.len() > 0 && k > 0 {
        assert(s[0] != c);
        let t = s.drop_first();
        assert forall|j: int| 0 <= j < k - 1 implies t[j] != c by {
            assert(t[j] == s[j + 1]);
        }
        lemma_first_index_is(t, c, k - 1);
    }
}

/// Applies the line `text[start..end]` to `env`.
fn apply_line_exec(env: &mut StringMap, text: &str, start: usize, end: usize)
    requires
        start <= end <= text@.len(),
    ensures
        final(env)@ == apply_env_line(old(env)@, text@.subrange(start as int, end as int)),
{
    let ghost line = text@.subrange(start as int, end as int);
    if start == end || text.get_char(start) == '#' {
        return;
    }
    let mut eq: usize = start;
    while eq < end && text.get_char(eq) != '='
        invariant
            start <= eq <= end,
            end <= text@.len(),
            line == text@.subrange(start as int, end as int),
            forall|j: int| start <= j < eq ==> text@[j] != '=',
        decreases end - eq,
    {
        eq += 1;
    }
    proof {
        assert forall|j: int| 0 <= j < eq - start implies line[j] != '=' by {
            assert(line[j] == text@[start + j]);
        }
        lemma_first_index_is(line, '=', eq - start);
    }
    if eq == end {
        return;
    }
    let key = text.substring_char(start, eq).to_owned();
    let value = text.substring_char(eq + 1, end).to_owned();
    assert(key@ =~= line.take((eq - start) as int));
    assert(value@ =~= line.skip((eq - start) + 1));
    env.insert(key, value);
}

/// The variables set by the text of an env file: one `KEY=VALUE` per line,
/// the key being the text before the first `=`; empty lines, lines starting
/// with `#` and lines without `=` are skipped, and a later line wins.
pub fn parse_env_text(text: &str) -> (env: StringMap)
    ensures
        env@ == parse_env(text@),
{
    let n = text.unicode_len();
    let mut env = StringMap::new();
    let mut start: usize = 0;
    let mut i: usize = 0;
    while i < n
        invariant
            n == text@.len(),
            start <= i <= n,
            env_fold(text@.take(i as int)) == (env@, text@.subrange(start as int, i as int)),
        decreases n - i,
    {
        let ghost prev = text@.take(i as int);
        assert(text@.take(i + 1).drop_last() =~= prev);
        if text.get_char(i) == '\n' {
            apply_line_exec(&mut env, text, start, i);
            start = i + 1;
            assert(text@.subrange(start as int, i + 1) =~= Seq::<char>::empty());
        } else {
            assert(text@.subrange(start as int, i + 1) =~= text@.subrange(start as int, i as int).push(
                text@[i as int],
            ));
        }
        i += 1;
    }
    assert(text@.take(n as int) =~= text@);
    apply_line_exec(&mut env, text, start, n);
    env
}

/// Resolves the local provider: the explicit choice if given, else
/// `ASTROPRESS_LOCAL_PROVIDER` of the environment (`sqlite` or `supabase`),
/// else SQLite. Any other value of the variable is an error.
pub fn resolve_local_provider(env: &StringMap, explicit: Option<LocalProvider>) -> (r: Result<
    LocalProvider,
    EnvError,
>)
    ensures
        match r {
            Ok(p) => local_provider_from(env@, explicit) == Ok::<LocalProvider, ()>(p),
            Err(EnvError::UnknownLocalProvider(v)) => local_provider_from(env@, explicit) is Err
                && v@ == env@[local_provider_key()],
        },
{
    match explicit {
        Some(p) => Ok(p),
        None => {
            match env.get("ASTROPRESS_LOCAL_PROVIDER") {
                None => Ok(LocalProvider::Sqlite),
                Some(v) => {
                    if str_eq(v.as_str(), LocalProvider::Sqlite.as_str()) {
                        Ok(LocalProvider::Sqlite)
                    } else if str_eq(v.as_str(), LocalProvider::Supabase.as_str()) {
                        Ok(LocalProvider::Supabase)
                    } else {
                        Err(EnvError::UnknownLocalProvider(v.clone()))
                    }
                },
            }
        },
    }
}

/// Resolves the deploy target: the explicit target if given, else
/// `ASTROPRESS_DEPLOY_TARGET` of the environment, else the target the local
/// provider suggests (`vercel` for Supabase, `github-pages` for SQLite).
pub fn resolve_deploy_target(env: &StringMap, explicit: Option<&str>) -> (r: Result<String, EnvError>)
    ensures
        match r {
            Ok(t) => deploy_target_from(env@, opt_str_view(explicit)) == Ok::<Seq<char>, ()>(t@),
            Err(EnvError::UnknownLocalProvider(v)) => deploy_target_from(env@, opt_str_view(explicit))
                is Err && v@ == env@[local_provider_key()],
        },
{
    match explicit {
        Some(t) => Ok(t.to_owned()),
        None => {
            match env.get("ASTROPRESS_DEPLOY_TARGET") {
                Some(t) => Ok(t.clone()),
                None => {
                    let p = resolve_local_provider(env, None)?;
                    match p {
                        LocalProvider::Sqlite => Ok("github-pages".to_owned()),
                        LocalProvider::Supabase => Ok("vercel".to_owned()),
                    }
                },
            }
        },
    }
}

/// The line of an env file that sets `key` to `value`.
pub open spec fn env_line(key: Seq<char>, value: Seq<char>) -> Seq<char> {
    key + "="@ + value + "\n"@
}

/// The env file text holding one line per entry, in order.
pub open spec fn format_entries(entries: Seq<(String, String)>) -> Seq<char>
    decreases entries.len(),
{
    if entries.len() == 0 {
        Seq::empty()
    } else {
        format_entries(entries.drop_last()) + env_line(entries.last().0@, entries.last().1@)
    }
}

/// Whether `key` reads back as written: not empty, not a comment, and
/// without `=` or line breaks.
pub open spec fn env_key_ok(key: Seq<char>) -> bool {
    &&& key.len() > 0
    &&& key[0] != '#'
    &&& !key.contains('=')
    &&& !key.contains('\n')
}

/// Whether `value` reads back as written: it holds no line break.
pub open spec fn env_value_ok(value: Seq<char>) -> bool {
    !value.contains('\n')
}

/// Formats the variables as an env file, one `KEY=VALUE` line each, in the
/// order of the map's entries.
pub fn format_env_map(env: &StringMap) -> (r: String)
    ensures
        distinct_keys(env.entry_seq()),
        entries_map(env.entry_seq()) == env@,
        r@ == format_entries(env.entry_seq()),
{
    let entries = env.entries();
    let n = entries.len();
    let mut r = "".to_owned();
    proof {
        reveal_strlit("");
    }
    let mut i: usize = 0;
    while i < n
        invariant
            n == entries@.len(),
            i <= n,
            r@ == format_entries(entries@.take(i as int)),
        decreases n - i,
    {
        proof {
            reveal_strlit("=");
            reveal_strlit("\n");
        }
        r.append(entries[i].0.as_str());
        r.append("=");
        r.append(entries[i].1.as_str());
        r.append("\n");
        assert(entries@.take(i + 1).drop_last() =~= entries@.take(i as int));
        assert(r@ =~= format_entries(entries@.take(i + 1)));
        i += 1;
    }
    assert(entries@.take(n as int) =~= entries@);
    r
}

/// One character of an env file read into the state (variables so far,
/// unfinished line).
pub open spec fn env_step(st: (Map<Seq<char>, Seq<char>>, Seq<char>), c: char) -> (
    Map<Seq<char>, Seq<char>>,
    Seq<char>,
) {
    if c == '\n' {
        (apply_env_line(st.0, st.1), Seq::empty())
    } else {
        (st.0, st.1.push(c))
    }
}

/// The state after reading `s` from `st`.
pub open spec fn env_fold_from(st: (Map<Seq<char>, Seq<char>>, Seq<char>), s: Seq<char>) -> (
    Map<Seq<char>, Seq<char>>,
    Seq<char>,
)
    decreases s.len(),
{
    if s.len() == 0 {
        st
    } else {
        env_step(env_fold_from(st, s.drop_last()), s.last())
    }
}

proof fn lemma_fold_is_fold_from(s: Seq<char>)
    ensures
        env_fold(s) == env_fold_from((Map::empty(), Seq::empty()), s),
    decreases s.len(),
{
    if s.len() > 0 {
        lemma_fold_is_fold_from(s.drop_last());
    }
}

proof fn lemma_fold_from_concat(
    st: (Map<Seq<char>, Seq<char>>, Seq<char>),
    a: Seq<char>,
    b: Seq<char>,
)
    ensures
        env_fold_from(st, a + b) == env_fold_from(env_fold_from(st, a), b),
    decreases b.len(),
{
    if b.len() == 0 {
        assert(a + b =~= a);
    } else {
        assert((a + b).drop_last() =~= a + b.drop_last());
        assert((a + b).last() == b.last());
        lemma_fold_from_concat(st, a, b.drop_last());
    }
}

proof fn lemma_fold_from_no_newline(m: Map<Seq<char>, Seq<char>>, p: Seq<char>, l: Seq<char>)
    requires
        !l.contains('\n'),
    ensures
        env_fold_from((m, p), l) == (m, p + l),
    decreases l.len(),
{
    if l.len() == 0 {
        assert(p + l =~= p);
    } else {
        let init = l.drop_last();
        assert(!init.contains('\n')) by {
            if init.contains('\n') {
                let j = choose|j: int| 0 <= j < init.len() && init[j] == '\n';
                assert(l[j] == '\n');
            }
        }
        lemma_fold_from_no_newline(m, p, init);
        assert(l.last() != '\n') by {
            assert(l[l.len() - 1] == l.last());
        }
        assert((p + init).push(l.last()) =~= p + l);
    }
}

proof fn lemma_line_round_trip(m: Map<Seq<char>, Seq<char>>, k: Seq<char>, v: Seq<char>)
    requires
        env_key_ok(k),
        env_value_ok(v),
    ensures
        env_fold_from((m, Seq::empty()), env_line(k, v)) == (m.insert(k, v), Seq::<char>::empty()),
{
    reveal_strlit("=");
    reveal_strlit("\n");
    let l = k + "="@ + v;
    assert(env_line(k, v) =~= l + seq!['\n']);
    assert(!l.contains('\n')) by {
        if l.contains('\n') {
            let j = choose|j: int| 0 <= j < l.len() && l[j] == '\n';
            if j < k.len() {
                assert(k[j] == '\n');
            } else if j > k.len() {
                assert(v[j - k.len() - 1] == '\n');
            }
        }
    }
    lemma_fold_from_concat((m, Seq::empty()), l, seq!['\n']);
    lemma_fold_from_no_newline(m, Seq::empty(), l);
    assert(Seq::<char>::empty() + l =~= l);
    assert(seq!['\n'].drop_last() =~= Seq::<char>::empty());
    assert forall|j: int| 0 <= j < k.len() implies l[j] != '=' by {
        assert(l[j] == k[j]);
        if k[j] == '=' {
            assert(k.contains('='));
        }
    }
    lemma_first_index_is(l, '=', k.len() as int);
    assert(l.take(k.len() as int) =~= k);
    assert(l.skip(k.len() as int + 1) =~= v);
    assert(l[0] == k[0]);
    assert(apply_env_line(m, l) == m.insert(k, v));
    let st = env_fold_from((m, Seq::empty()), l);
    assert(st == (m, l));
    assert(env_fold_from(st, seq!['\n']) == env_step(env_fold_from(st, Seq::<char>::empty()), '\n'));
    assert(env_fold_from(st, Seq::<char>::empty()) == st);
}

proof fn lemma_format_fold(entries: Seq<(String, String)>)
    requires
        forall|i: int|
            0 <= i < entries.len() ==> env_key_ok(#[trigger] entries[i].0@) && env_value_ok(
                entries[i].1@,
            ),
    ensures
        env_fold_from((Map::empty(), Seq::empty()), format_entries(entries)) == (
            insert_all(Map::empty(), entries),
            Seq::<char>::empty(),
        ),
    decreases entries.len(),
{
    if entries.len() > 0 {
        let init = entries.drop_last();
        assert forall|i: int| 0 <= i < init.len() implies env_key_ok(#[trigger] init[i].0@)
            && env_value_ok(init[i].1@) by {
            assert(init[i] == entries[i]);
        }
        lemma_format_fold(init);
        let last = entries.last();
        assert(env_key_ok(entries[entries.len() - 1].0@));
        lemma_fold_from_concat(
            (Map::empty(), Seq::empty()),
            format_entries(init),
            env_line(last.0@, last.1@),
        );
        lemma_line_round_trip(insert_all(Map::empty(), init), last.0@, last.1@);
    }
}

/// Reading back what was written: when every key is a plain name (not
/// empty, not starting with `#`, without `=` or line breaks) and no value
/// holds a line break, parsing the formatted env file gives back exactly
/// the variables that were formatted.
pub proof fn lemma_env_round_trip(entries: Seq<(String, String)>)
    requires
        distinct_keys(entries),
        forall|i: int|
            0 <= i < entries.len() ==> env_key_ok(#[trigger] entries[i].0@) && env_value_ok(
                entries[i].1@,
            ),
    ensures
        parse_env(format_entries(entries)) == entries_map(entries),
{
    lemma_fold_is_fold_from(format_entries(entries));
    lemma_format_fold(entries);
    lemma_entries_map_is_insert_all(entries);
}

/// An explicit local provider always wins, whatever the environment holds.
pub proof fn lemma_explicit_provider_wins(env: Map<Seq<char>, Seq<char>>, p: LocalProvider)
    ensures
        local_provider_from(env, Some(p)) == Ok::<LocalProvider, ()>(p),
{
}

/// Without an explicit choice, naming a provider in the environment selects
/// it, and an environment that names none selects SQLite.
pub proof fn lemma_env_names_the_provider(env: Map<Seq<char>, Seq<char>>, p: LocalProvider)
    ensures
        local_provider_from(env.insert(local_provider_key(), local_provider_id(p)), None)
            == Ok::<LocalProvider, ()>(p),
        !env.contains_key(local_provider_key()) ==> local_provider_from(env, None)
            == Ok::<LocalProvider, ()>(LocalProvider::Sqlite),
        env.contains_key(local_provider_key()) && env[local_provider_key()] != "sqlite"@
            && env[local_provider_key()] != "supabase"@ ==> local_provider_from(env, None) is Err,
{
    reveal_strlit("sqlite");
    reveal_strlit("supabase");
    assert(local_provider_id(LocalProvider::Sqlite).len() == 6);
    assert(local_provider_id(LocalProvider::Supabase).len() == 8);
    assert(local_provider_id(LocalProvider::Sqlite) != local_provider_id(LocalProvider::Supabase));
}

/// An explicit deploy target always wins; without one, a target the
/// environment names is taken whatever the local provider is.
pub proof fn lemma_deploy_target_precedence(
    env: Map<Seq<char>, Seq<char>>,
    t: Seq<char>,
    explicit: Seq<char>,
)
    ensures
        deploy_target_from(env, Some(explicit)) == Ok::<Seq<char>, ()>(explicit),
        deploy_target_from(env.insert(deploy_target_key(), t), None) == Ok::<Seq<char>, ()>(t),
        env.contains_key(deploy_target_key()) ==> deploy_target_from(env, None)
            == Ok::<Seq<char>, ()>(env[deploy_target_key()]),
{
}

/// Without any target named, the deploy target follows the local provider:
/// `vercel` for Supabase, `github-pages` for SQLite.
pub proof fn lemma_deploy_target_follows_provider(env: Map<Seq<char>, Seq<char>>, p: LocalProvider)
    requires
        !env.contains_key(deploy_target_key()),
    ensures
        deploy_target_from(env.insert(local_provider_key(), local_provider_id(p)), None) == Ok::<
            Seq<char>,
            (),
        >(
            match p {
                LocalProvider::Sqlite => "github-pages"@,
                LocalProvider::Supabase => "vercel"@,
            },
        ),
{
    reveal_strlit("ASTROPRESS_LOCAL_PROVIDER");
    reveal_strlit("ASTROPRESS_DEPLOY_TARGET");
    assert(local_provider_key() != deploy_target_key()) by {
        assert(local_provider_key()[11] != deploy_target_key()[11]);
    }
    lemma_env_names_the_provider(env, p);
}

/// The last line counts whether or not a newline ends it: a final newline
/// changes nothing.
pub proof fn lemma_final_newline_changes_nothing(s: Seq<char>)
    ensures
        parse_env(s + seq!['\n']) == parse_env(s),
{
    let t = s + seq!['\n'];
    assert(t.drop_last() =~= s);
    let (m, line) = env_fold(s);
    assert(env_fold(t) == (apply_env_line(m, line), Seq::<char>::empty()));
}

/// Appending the line `KEY=VALUE` after a newline sets `KEY` to `VALUE`
/// and keeps every other variable, for a plain key (not empty, not starting
/// with `#`, without `=` or line breaks) and a value without line breaks.
pub proof fn lemma_appended_line_sets_its_key(s: Seq<char>, k: Seq<char>, v: Seq<char>)
    requires
        env_key_ok(k),
        env_value_ok(v),
    ensures
        parse_env(s + seq!['\n'] + env_line(k, v)) == parse_env(s).insert(k, v),
        parse_env(s + seq!['\n'] + k + "="@ + v) == parse_env(s).insert(k, v),
{
    reveal_strlit("=");
    reveal_strlit("\n");
    let init = (Map::<Seq<char>, Seq<char>>::empty(), Seq::<char>::empty());
    let a = s + seq!['\n'];
    lemma_fold_is_fold_from(a);
    lemma_fold_is_fold_from(a + env_line(k, v));
    lemma_fold_from_concat(init, a, env_line(k, v));
    lemma_final_newline_changes_nothing(s);
    assert(a.drop_last() =~= s);
    let (m, line) = env_fold(s);
    assert(env_fold(a) == (apply_env_line(m, line), Seq::<char>::empty()));
    assert(parse_env(s) == apply_env_line(m, line));
    lemma_line_round_trip(parse_env(s), k, v);
    let b = a + env_line(k, v);
    let (m2, line2) = env_fold(b);
    assert(line2 == Seq::<char>::empty());
    assert(parse_env(b) == m2);
    let c = s + seq!['\n'] + k + "="@ + v;
    assert(c + seq!['\n'] =~= b);
    lemma_final_newline_changes_nothing(c);
}

/// A single line `KEY=VALUE`, with or without a final newline, reads as
/// the one variable `KEY` set to `VALUE`.
pub proof fn lemma_single_line(k: Seq<char>, v: Seq<char>)
    requires
        env_key_ok(k),
        env_value_ok(v),
    ensures
        parse_env(k + "="@ + v) == Map::<Seq<char>, Seq<char>>::empty().insert(k, v),
        parse_env(env_line(k, v)) == Map::<Seq<char>, Seq<char>>::empty().insert(k, v),
{
    reveal_strlit("=");
    reveal_strlit("\n");
    lemma_fold_is_fold_from(env_line(k, v));
    lemma_line_round_trip(Map::empty(), k, v);
    let l = k + "="@ + v;
    assert(l + seq!['\n'] =~= env_line(k, v));
    lemma_final_newline_changes_nothing(l);
    let (m, line) = env_fold(env_line(k, v));
    assert(apply_env_line(m, line) == m);
}

/// Appending, after a newline, a line that starts with `#` or holds no `=`
/// changes nothing; the empty text sets nothing.
pub proof fn lemma_ignored_lines(s: Seq<char>, l: Seq<char>)
    requires
        !l.contains('\n'),
        l.len() == 0 || l[0] == '#' || !l.contains('='),
    ensures
        parse_env(s + seq!['\n'] + l) == parse_env(s),
        parse_env(Seq::empty()) == Map::<Seq<char>, Seq<char>>::empty(),
{
    let init = (Map::<Seq<char>, Seq<char>>::empty(), Seq::<char>::empty());
    let a = s + seq!['\n'];
    lemma_fold_is_fold_from(a);
    lemma_fold_is_fold_from(a + l);
    lemma_fold_from_concat(init, a, l);
    assert(a.drop_last() =~= s);
    let (m, line) = env_fold(s);
    assert(env_fold(a) == (apply_env_line(m, line), Seq::<char>::empty()));
    lemma_fold_from_no_newline(parse_env(s), Seq::empty(), l);
    assert(Seq::<char>::empty() + l =~= l);
    if l.len() > 0 && l[0] != '#' {
        assert forall|j: int| 0 <= j < l.len() implies l[j] != '=' by {
            if l[j] == '=' {
                assert(l.contains('='));
            }
        }
        lemma_first_index_is(l, '=', l.len() as int);
    }
    assert(apply_env_line(parse_env(s), l) == parse_env(s));
}

} // verus!
