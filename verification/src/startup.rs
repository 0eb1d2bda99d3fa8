//! What the bot announces at start-up: the catalog of its commands, kept
//! sorted and free of repeats, how the catalog changed since the last run,
//! and the announcement text for such a change.

use vstd::prelude::*;

use crate::text::{int_decimal, nat_decimal, owned, push_nat_decimal, push_str, str_eq};

verus! {

/// Strict lexicographic order of texts, character by character (the order
/// of Rust's `String`).
pub open spec fn text_lt(a: Seq<char>, b: Seq<char>) -> bool
    decreases a.len(),
{
    if a.len() == 0 {
        b.len() > 0
    } else if b.len() == 0 {
        false
    } else if a[0] != b[0] {
        (a[0] as int) < (b[0] as int)
    } else {
        text_lt(a.skip(1), b.skip(1))
    }
}

/// No text comes before itself.
pub proof fn lemma_text_lt_irreflexive(a: Seq<char>)
    ensures
        !text_lt(a, a),
    decreases a.len(),
{
    if a.len() > 0 {
        lemma_text_lt_irreflexive(a.skip(1));
    }
}

/// The order of texts is transitive.
pub proof fn lemma_text_lt_transitive(a: Seq<char>, b: Seq<char>, c: Seq<char>)
    requires
        text_lt(a, b),
        text_lt(b, c),
    ensures
        text_lt(a, c),
    decreases a.len(),
{
    if a.len() > 0 && b.len() > 0 && c.len() > 0 {
        if a[0] == b[0] && b[0] == c[0] {
            lemma_text_lt_transitive(a.skip(1), b.skip(1), c.skip(1));
        }
    }
}

/// Any two different texts are ordered one way or the other.
pub proof fn lemma_text_lt_total(a: Seq<char>, b: Seq<char>)
    ensures
        a == b || text_lt(a, b) || text_lt(b, a),
    decreases a.len(),
{
    if a.len() > 0 && b.len() > 0 && a[0] == b[0] {
        lemma_text_lt_total(a.skip(1), b.skip(1));
        if a.skip(1) == b.skip(1) {
            assert(a =~= seq![a[0]] + a.skip(1));
            assert(b =~= seq![b[0]] + b.skip(1));
        }
    } else if a.len() == 0 && b.len() == 0 {
        assert(a =~= b);
    } else if a.len() > 0 && b.len() > 0 {
        assert((a[0] as int) != (b[0] as int));
    }
}

/// Compares two texts in the order of Rust's `String`.
pub fn text_less(a: &str, b: &str) -> (r: bool)
    ensures
        r == text_lt(a@, b@),
{
    let n = a.unicode_len();
    let m = b.unicode_len();
    let mut i: usize = 0;
    assert(a@.skip(0) =~= a@);
    assert(b@.skip(0) =~= b@);
    while i < n && i < m && a.get_char(i) == b.get_char(i)
        invariant
            n == a@.len(),
            m == b@.len(),
            i <= n,
            i <= m,
            text_lt(a@, b@) == text_lt(a@.skip(i as int), b@.skip(i as int)),
        decreases n - i,
    {
        assert(a@.skip(i as int).skip(1) =~= a@.skip(i + 1));
        assert(b@.skip(i as int).skip(1) =~= b@.skip(i + 1));
        i = i + 1;
    }
    if i == n {
        i < m
    } else if i == m {
        false
    } else {
        let x = a.get_char(i);
        let y = b.get_char(i);
        assert(a@.skip(i as int)[0] == x);
        assert(b@.skip(i as int)[0] == y);
        (x as u32) < (y as u32)
    }
}

/// The texts of a list of strings.
pub open spec fn texts(v: Seq<String>) -> Seq<Seq<char>> {
    v.map_values(|s: String| s@)
}

/// Each text comes strictly before the next: sorted, and no repeats.
pub open spec fn strictly_sorted(s: Seq<Seq<char>>) -> bool {
    forall|i: int, j: int| 0 <= i < j < s.len() ==> text_lt(#[trigger] s[i], #[trigger] s[j])
}

fn insert_sorted(v: &mut Vec<String>, s: String)
    requires
        strictly_sorted(texts(old(v)@)),
    ensures
        strictly_sorted(texts(final(v)@)),
        texts(final(v)@).to_set() == texts(old(v)@).to_set().insert(s@),
{
    let ghost before = texts(v@);
    let mut i: usize = 0;
    while i < v.len() && text_less(v[i].as_str(), s.as_str())
        invariant
            i <= v.len(),
            before == texts(v@),
            strictly_sorted(before),
            forall|k: int| 0 <= k < i ==> text_lt(#[trigger] before[k], s@),
        decreases v.len() - i,
    {
        i = i + 1;
    }
    if i < v.len() && str_eq(v[i].as_str(), s.as_str()) {
        assert(before.to_set().insert(s@) =~= before.to_set()) by {
            assert(before[i as int] == s@);
        }
        return;
    }
    proof {
        if i < v.len() {
            lemma_text_lt_total(before[i as int], s@);
        }
    }
    let ghost item = s@;
    v.insert(i, s);
    let ghost after = texts(v@);
    proof {
        assert(after =~= before.insert(i as int, item));
        assert forall|a: int, b: int| 0 <= a < b < after.len() implies text_lt(
            #[trigger] after[a],
            #[trigger] after[b],
        ) by {
            if b < i {
            } else if b == i {
                assert(after[a] == before[a]);
            } else if a == i {
                assert(after[b] == before[b - 1]);
                if b - 1 > i {
                    lemma_text_lt_transitive(item, before[i as int], before[b - 1]);
                }
            } else if a < i {
                assert(after[a] == before[a]);
                assert(after[b] == before[b - 1]);
            } else {
                assert(after[a] == before[a - 1]);
                assert(after[b] == before[b - 1]);
            }
        }
        assert forall|x: Seq<char>| after.to_set().contains(x) <==> before.to_set().insert(
            item,
        ).contains(x) by {
            if after.to_set().contains(x) {
                let k = choose|k: int| 0 <= k < after.len() && after[k] == x;
                if k < i {
                    assert(before[k] == x);
                } else if k > i {
                    assert(before[k - 1] == x);
                }
            }
            if before.to_set().contains(x) {
                let k = choose|k: int| 0 <= k < before.len() && before[k] == x;
                if k < i {
                    assert(after[k] == x);
                } else {
                    assert(after[k + 1] == x);
                }
            }
            if x == item {
                assert(after[i as int] == x);
            }
        }
        assert(after.to_set() =~= before.to_set().insert(item));
    }
}

/// The distinct texts of a list, sorted (what collecting them into a
/// `BTreeSet` gives).
pub fn sorted_unique(names: &Vec<String>) -> (r: Vec<String>)
    ensures
        strictly_sorted(texts(r@)),
        texts(r@).to_set() == texts(names@).to_set(),
{
    let mut out: Vec<String> = Vec::new();
    let mut k: usize = 0;
    while k < names.len()
        invariant
            k <= names.len(),
            strictly_sorted(texts(out@)),
            texts(out@).to_set() == texts(names@.take(k as int)).to_set(),
        decreases names.len() - k,
    {
        insert_sorted(&mut out, names[k].clone());
        proof {
            assert(texts(names@.take(k as int + 1)) =~= texts(names@.take(k as int)).push(names@[k as int]@));
            texts(names@.take(k as int)).lemma_push_to_set_commute(names@[k as int]@);
        }
        k = k + 1;
    }
    assert(names@.take(k as int) =~= names@);
    out
}

fn contains_text(v: &Vec<String>, s: &str) -> (r: bool)
    ensures
        r == texts(v@).contains(s@),
{
    let mut i: usize = 0;
    while i < v.len()
        invariant
            i <= v.len(),
            forall|k: int| 0 <= k < i ==> texts(v@)[k] != s@,
        decreases v.len() - i,
    {
        if str_eq(v[i].as_str(), s) {
            assert(texts(v@)[i as int] == s@);
            return true;
        }
        i = i + 1;
    }
    false
}

/// The texts of a sorted list that another list lacks, in order.
pub fn sorted_difference(a: &Vec<String>, b: &Vec<String>) -> (r: Vec<String>)
    requires
        strictly_sorted(texts(a@)),
    ensures
        strictly_sorted(texts(r@)),
        texts(r@).to_set() == texts(a@).to_set().difference(texts(b@).to_set()),
{
    let ghost ta = texts(a@);
    let ghost tb = texts(b@);
    let mut out: Vec<String> = Vec::new();
    let mut k: usize = 0;
    while k < a.len()
        invariant
            k <= a.len(),
            ta == texts(a@),
            tb == texts(b@),
            strictly_sorted(ta),
            strictly_sorted(texts(out@)),
            forall|m: int|
                #![trigger texts(out@)[m]]
                0 <= m < out@.len() ==> exists|j: int| 0 <= j < k && #[trigger] ta[j] == texts(out@)[m],
            texts(out@).to_set() == ta.take(k as int).to_set().difference(tb.to_set()),
        decreases a.len() - k,
    {
        let ghost before = texts(out@);
        let keep = !contains_text(b, a[k].as_str());
        if keep {
            out.push(a[k].clone());
            proof {
                assert(texts(out@) =~= before.push(ta[k as int]));
                assert forall|x: int, y: int| 0 <= x < y < texts(out@).len() implies text_lt(
                    #[trigger] texts(out@)[x],
                    #[trigger] texts(out@)[y],
                ) by {
                    if y == before.len() {
                        let j = choose|j: int| 0 <= j < k && #[trigger] ta[j] == before[x];
                        assert(text_lt(ta[j], ta[k as int]));
                    } else {
                        assert(texts(out@)[x] == before[x]);
                        assert(texts(out@)[y] == before[y]);
                    }
                }
                assert forall|m: int|
                    #![trigger texts(out@)[m]]
                    0 <= m < out@.len() implies exists|j: int|
                    0 <= j < k + 1 && #[trigger] ta[j] == texts(out@)[m] by {
                    if m == before.len() {
                        assert(ta[k as int] == texts(out@)[m]);
                    } else {
                        let j = choose|j: int| 0 <= j < k && #[trigger] ta[j] == before[m];
                        assert(ta[j] == texts(out@)[m]);
                    }
                }
            }
        }
        proof {
            assert(ta.take(k as int + 1) =~= ta.take(k as int).push(ta[k as int]));
            ta.take(k as int).lemma_push_to_set_commute(ta[k as int]);
            if keep {
                before.lemma_push_to_set_commute(ta[k as int]);
            }
            assert(texts(out@).to_set() =~= ta.take(k as int + 1).to_set().difference(tb.to_set()));
        }
        k = k + 1;
    }
    assert(ta.take(k as int) =~= ta);
    out
}

/// The commands the bot had registered at some run.
#[derive(Clone, Debug)]
pub struct CommandManifest {
    pub version: String,
    pub commands: Vec<String>,
    pub recorded_at: String,
}

/// How the command catalog changed between two runs.
#[derive(Clone, Debug)]
pub struct CommandDiff {
    pub previous_version: Option<String>,
    pub current_version: String,
    pub added_commands: Vec<String>,
    pub removed_commands: Vec<String>,
    pub changed: bool,
    pub first_boot: bool,
}

impl CommandDiff {
    /// The diff of a run whose catalog and version match the last run's.
    pub fn unchanged(current_version: &str) -> (d: Self)
        ensures
            d.previous_version matches Some(p) && p@ == current_version@,
            d.current_version@ == current_version@,
            d.added_commands@.len() == 0,
            d.removed_commands@.len() == 0,
            !d.changed,
            !d.first_boot,
    {
        CommandDiff {
            previous_version: Some(owned(current_version)),
            current_version: owned(current_version),
            added_commands: Vec::new(),
            removed_commands: Vec::new(),
            changed: false,
            first_boot: false,
        }
    }
}

/// The commands of a manifest, as a set.
pub open spec fn command_set(m: CommandManifest) -> Set<Seq<char>> {
    texts(m.commands@).to_set()
}

/// Compares this run's catalog with the last run's, if there was one. On
/// first boot every current command counts as added. Otherwise the added
/// and removed commands are the sorted differences of the two catalogs,
/// and the catalog counts as changed exactly when the version or the set
/// of commands differs (the recording time does not matter).
pub fn command_diff(previous: Option<CommandManifest>, current: &CommandManifest) -> (d: CommandDiff)
    ensures
        match previous {
            None => {
                &&& d.previous_version is None
                &&& d.current_version@ == current.version@
                &&& texts(d.added_commands@) == texts(current.commands@)
                &&& d.removed_commands@.len() == 0
                &&& d.changed
                &&& d.first_boot
            },
            Some(p) => {
                &&& d.changed == (p.version@ != current.version@ || command_set(p) != command_set(
                    *current,
                ))
                &&& !d.first_boot
                &&& d.current_version@ == current.version@
                &&& strictly_sorted(texts(d.added_commands@))
                &&& strictly_sorted(texts(d.removed_commands@))
                &&& texts(d.added_commands@).to_set() == command_set(*current).difference(
                    command_set(p),
                )
                &&& texts(d.removed_commands@).to_set() == command_set(p).difference(
                    command_set(*current),
                )
                &&& d.previous_version matches Some(v) && v@ == (if d.changed {
                    p.version@
                } else {
                    current.version@
                })
            },
        },
{
    match previous {
        None => CommandDiff {
            previous_version: None,
            current_version: current.version.clone(),
            added_commands: current.commands.clone(),
            removed_commands: Vec::new(),
            changed: true,
            first_boot: true,
        },
        Some(p) => {
            let before = sorted_unique(&p.commands);
            let now = sorted_unique(&current.commands);
            let added = sorted_difference(&now, &before);
            let removed = sorted_difference(&before, &now);
            let changed = !str_eq(p.version.as_str(), current.version.as_str()) || added.len() > 0
                || removed.len() > 0;
            proof {
                let cs = command_set(*current);
                let ps = command_set(p);
                assert(texts(added@).to_set().len() == 0 ==> texts(added@).len() == 0 || true);
                if added.len() == 0 && removed.len() == 0 {
                    assert(texts(added@).to_set() =~= Set::<Seq<char>>::empty());
                    assert(texts(removed@).to_set() =~= Set::<Seq<char>>::empty());
                    assert forall|x: Seq<char>| cs.contains(x) <==> ps.contains(x) by {
                        if cs.contains(x) && !ps.contains(x) {
                            assert(cs.difference(ps).contains(x));
                        }
                        if ps.contains(x) && !cs.contains(x) {
                            assert(ps.difference(cs).contains(x));
                        }
                    }
                    assert(cs =~= ps);
                } else if added.len() > 0 {
                    assert(texts(added@).to_set().contains(texts(added@)[0]));
                    assert(cs != ps);
                } else {
                    assert(texts(removed@).to_set().contains(texts(removed@)[0]));
                    assert(cs != ps);
                }
            }
            if !changed {
                let d = CommandDiff::unchanged(current.version.as_str());
                proof {
                    assert(texts(d.added_commands@) =~= Seq::<Seq<char>>::empty());
                    assert(texts(d.removed_commands@) =~= Seq::<Seq<char>>::empty());
                    assert(texts(added@) =~= Seq::<Seq<char>>::empty());
                    assert(texts(removed@) =~= Seq::<Seq<char>>::empty());
                }
                d
            } else {
                CommandDiff {
                    previous_version: Some(p.version),
                    current_version: current.version.clone(),
                    added_commands: added,
                    removed_commands: removed,
                    changed: true,
                    first_boot: false,
                }
            }
        },
    }
}

/// Texts joined with a separator between each two.
pub open spec fn joined(items: Seq<Seq<char>>, separator: Seq<char>) -> Seq<char>
    decreases items.len(),
{
    if items.len() == 0 {
        Seq::empty()
    } else if items.len() == 1 {
        items[0]
    } else {
        joined(items.drop_last(), separator) + separator + items.last()
    }
}

/// Joins texts with a separator between each two (`join`).
pub fn join_texts(items: &Vec<String>, separator: &str) -> (r: String)
    ensures
        r@ == joined(texts(items@), separator@),
{
    let mut out = String::new();
    let mut k: usize = 0;
    while k < items.len()
        invariant
            k <= items.len(),
            out@ == joined(texts(items@).take(k as int), separator@),
        decreases items.len() - k,
    {
        proof {
            assert(texts(items@).take(k as int + 1).drop_last() =~= texts(items@).take(k as int));
        }
        if k > 0 {
            push_str(&mut out, separator);
        }
        push_str(&mut out, items[k].as_str());
        proof {
            if k == 0 {
                assert(out@ =~= texts(items@).take(1)[0]);
            }
        }
        k = k + 1;
    }
    assert(texts(items@).take(k as int) =~= texts(items@));
    out
}

/// The lines of a command-change announcement.
pub open spec fn announcement_lines(diff: CommandDiff) -> Seq<Seq<char>> {
    let version = seq!["**Version:** `"@ + diff.current_version@ + "`"@];
    let previous = match diff.previous_version {
        Some(p) => if p@ != diff.current_version@ {
            seq!["**Previous version:** `"@ + p@ + "`"@]
        } else {
            Seq::empty()
        },
        None => Seq::empty(),
    };
    let body = if diff.first_boot {
        seq![
            "Synced **"@ + nat_decimal(diff.added_commands@.len()) + "** slash commands for this server."@,
            "Use `/list_commands` or `/tutorial` to explore the bot."@,
        ]
    } else {
        (if diff.added_commands@.len() > 0 {
            seq!["**New commands:** "@ + joined(texts(diff.added_commands@), ", "@)]
        } else {
            Seq::empty()
        }) + (if diff.removed_commands@.len() > 0 {
            seq!["**Removed commands:** "@ + joined(texts(diff.removed_commands@), ", "@)]
        } else {
            Seq::empty()
        }) + seq!["Use `/list_commands` to see the refreshed catalog."@]
    };
    version + previous + body
}

/// The title and text announcing a change of the command catalog: the
/// version, the previous one when it differs, then on first boot how many
/// commands were synced, otherwise which commands came and went.
pub fn command_announcement(diff: &CommandDiff) -> (r: (String, String))
    ensures
        r.0@ == (if diff.first_boot {
            "Profit Rat is online"@
        } else {
            "Profit Rat command update"@
        }),
        r.1@ == joined(announcement_lines(*diff), "\n"@),
{
    let title = if diff.first_boot {
        owned("Profit Rat is online")
    } else {
        owned("Profit Rat command update")
    };
    let mut lines: Vec<String> = Vec::new();
    let mut version = owned("**Version:** `");
    push_str(&mut version, diff.current_version.as_str());
    push_str(&mut version, "`");
    lines.push(version);
    match &diff.previous_version {
        Some(p) => {
            if !str_eq(p.as_str(), diff.current_version.as_str()) {
                let mut line = owned("**Previous version:** `");
                push_str(&mut line, p.as_str());
                push_str(&mut line, "`");
                lines.push(line);
            }
        },
        None => {},
    }
    if diff.first_boot {
        let mut line = owned("Synced **");
        push_nat_decimal(&mut line, diff.added_commands.len() as u64);
        push_str(&mut line, "** slash commands for this server.");
        lines.push(line);
        lines.push(owned("Use `/list_commands` or `/tutorial` to explore the bot."));
    } else {
        if diff.added_commands.len() > 0 {
            let mut line = owned("**New commands:** ");
            let joined_added = join_texts(&diff.added_commands, ", ");
            push_str(&mut line, joined_added.as_str());
            lines.push(line);
        }
        if diff.removed_commands.len() > 0 {
            let mut line = owned("**Removed commands:** ");
            let joined_removed = join_texts(&diff.removed_commands, ", ");
            push_str(&mut line, joined_removed.as_str());
            lines.push(line);
        }
        lines.push(owned("Use `/list_commands` to see the refreshed catalog."));
    }
    proof {
        assert(texts(lines@) =~= announcement_lines(*diff));
    }
    (title, join_texts(&lines, "\n"))
}

} // verus!
