//! Building the set of relay candidates for one request: the servers the
//! user shares with the bot, restricted to those with a configured moderator
//! role, listed in lexicographic order of their display names.

use vstd::prelude::*;

use crate::config::{Config, ConfigView};
use crate::text::lex_lt;

verus! {

/// The mathematical value of a [`SharedGuild`].
pub struct SharedGuildView {
    pub id: u64,
    pub name: Seq<char>,
}

/// One server that both the bot and the requesting user belong to, as the
/// gateway cache reports it.
#[derive(Debug)]
pub struct SharedGuild {
    pub id: u64,
    pub name: String,
}

impl View for SharedGuild {
    type V = SharedGuildView;

    open spec fn view(&self) -> SharedGuildView {
        SharedGuildView { id: self.id, name: self.name@ }
    }
}

/// The mathematical value of a [`Candidate`].
pub struct CandidateView {
    pub name: Seq<char>,
    pub config: ConfigView,
}

/// One server a message could be relayed to: its display name together with
/// its relay configuration.
#[derive(Debug)]
pub struct Candidate {
    pub name: String,
    pub config: Config,
}

impl View for Candidate {
    type V = CandidateView;

    open spec fn view(&self) -> CandidateView {
        CandidateView { name: self.name@, config: self.config@ }
    }
}

/// The mathematical values of a sequence of candidates.
pub open spec fn views_of(s: Seq<Candidate>) -> Seq<CandidateView> {
    s.map_values(|c: Candidate| c@)
}

/// Whether a stored server identifier (a signed database column) denotes the
/// unsigned platform identifier `gid`: the column holds the identifier's
/// two's-complement bit pattern.
pub open spec fn spec_id_matches(stored: int, gid: u64) -> bool {
    stored == gid || stored + 0x1_0000_0000_0000_0000 == gid
}

/// The unsigned platform identifier a stored server identifier denotes.
pub open spec fn spec_uid(stored: int) -> int {
    if stored >= 0 {
        stored
    } else {
        stored + 0x1_0000_0000_0000_0000
    }
}

/// Decides [`spec_id_matches`].
pub fn id_matches(stored: i64, gid: u64) -> (r: bool)
    ensures
        r == spec_id_matches(stored as int, gid),
{
    let s: i128 = stored as i128;
    let g: i128 = gid as i128;
    s == g || s + 0x1_0000_0000_0000_0000i128 == g
}

/// Computes [`spec_uid`].
pub fn uid_value(stored: i64) -> (r: i128)
    ensures
        r == spec_uid(stored as int),
{
    let s: i128 = stored as i128;
    if s >= 0 {
        s
    } else {
        s + 0x1_0000_0000_0000_0000i128
    }
}

/// Candidate lists are kept strictly sorted by name, so each display name
/// appears at most once.
pub open spec fn sorted_by_name(r: Seq<Candidate>) -> bool {
    forall|i: int, j: int| 0 <= i < j < r.len() ==> lex_lt(r[i].name@, r[j].name@)
}

/// `c` pairs the display name of a shared guild with a stored configuration
/// of that same guild, and that configuration names a moderator role.
pub open spec fn is_candidate_entry(
    shared: Seq<SharedGuild>,
    configs: Seq<Config>,
    c: CandidateView,
) -> bool {
    exists|i: int, j: int|
        #![trigger shared[i], configs[j]]
        0 <= i < shared.len() && 0 <= j < configs.len() && shared[i].name@ == c.name
            && configs[j]@ == c.config && spec_id_matches(configs[j]@.server_id, shared[i].id)
            && c.config.moderator_role is Some
}

/// Some stored configuration is for server `gid` and names a moderator role.
pub open spec fn has_moderated_config(configs: Seq<Config>, gid: u64) -> bool {
    exists|j: int|
        0 <= j < configs.len() && spec_id_matches(#[trigger] configs[j]@.server_id, gid)
            && configs[j]@.moderator_role is Some
}

/// `name` appears in the candidate list `r`.
pub open spec fn name_listed(r: Seq<Candidate>, name: Seq<char>) -> bool {
    exists|k: int| 0 <= k < r.len() && #[trigger] r[k].name@ == name
}

/// Lexicographic order is total: two sequences are ordered one way or the
/// other, or they are equal.
pub proof fn lemma_lex_total(a: Seq<char>, b: Seq<char>)
    ensures
        lex_lt(a, b) || lex_lt(b, a) || a =~= b,
    decreases a.len(),
{
    if b.len() == 0 {
        if a.len() == 0 {
            assert(a =~= b);
        }
    } else if a.len() == 0 {
    } else if a[0] != b[0] {
        assert((a[0] as int) != (b[0] as int));
    } else {
        lemma_lex_total(a.skip(1), b.skip(1));
        if !lex_lt(a, b) && !lex_lt(b, a) {
            assert(a.skip(1) =~= b.skip(1));
            assert forall|i: int| 0 <= i < a.len() implies a[i] == b[i] by {
                if i > 0 {
                    assert(a[i] == a.skip(1)[i - 1]);
                    assert(b[i] == b.skip(1)[i - 1]);
                }
            }
            assert(a =~= b);
        }
    }
}

/// Lexicographic order is asymmetric; in particular nothing sorts before
/// itself.
pub proof fn lemma_lex_asym(a: Seq<char>, b: Seq<char>)
    requires
        lex_lt(a, b),
    ensures
        !lex_lt(b, a),
    decreases a.len(),
{
    if a.len() > 0 && b.len() > 0 && a[0] == b[0] {
        lemma_lex_asym(a.skip(1), b.skip(1));
    }
}

/// Lexicographic order is transitive.
pub proof fn lemma_lex_trans(a: Seq<char>, b: Seq<char>, c: Seq<char>)
    requires
        lex_lt(a, b),
        lex_lt(b, c),
    ensures
        lex_lt(a, c),
    decreases a.len(),
{
    if a.len() == 0 {
    } else if a[0] == b[0] && b[0] == c[0] {
        lemma_lex_trans(a.skip(1), b.skip(1), c.skip(1));
    }
}

/// Finds a stored configuration for server `gid` that names a moderator
/// role, if there is one.
fn find_config(configs: &Vec<Config>, gid: u64) -> (r: Option<usize>)
    ensures
        match r {
            Some(j) => j < configs@.len() && spec_id_matches(configs@[j as int]@.server_id, gid)
                && configs@[j as int]@.moderator_role is Some,
            None => !has_moderated_config(configs@, gid),
        },
{
    let mut j: usize = 0;
    while j < configs.len()
        invariant
            j <= configs@.len(),
            forall|k: int|
                0 <= k < j ==> !(spec_id_matches(#[trigger] configs@[k]@.server_id, gid)
                    && configs@[k]@.moderator_role is Some),
        decreases configs@.len() - j,
    {
        if id_matches(configs[j].server_id, gid) && configs[j].is_moderated() {
            return Some(j);
        }
        j = j + 1;
    }
    None
}

/// Inserts `cand` into the sorted candidate list `r`. If a candidate with
/// the same name is already listed, the one whose server identifier denotes
/// the numerically greater platform identifier keeps the slot, matching how
/// an identifier-ordered scan into a name-keyed map would resolve the clash.
fn insert_candidate(r: &mut Vec<Candidate>, cand: Candidate)
    requires
        sorted_by_name(old(r)@),
    ensures
        sorted_by_name(final(r)@),
        forall|k: int|
            0 <= k < final(r)@.len() ==> final(r)@[k] == cand || old(r)@.contains(
                #[trigger] final(r)@[k],
            ),
        name_listed(final(r)@, cand.name@),
        forall|k: int| 0 <= k < old(r)@.len() ==> name_listed(final(r)@, #[trigger] old(r)@[k].name@),
        forall|k: int|
            0 <= k < final(r)@.len() && #[trigger] final(r)@[k].name@ == cand.name@ ==> spec_uid(
                final(r)@[k].config@.server_id,
            ) >= spec_uid(cand.config@.server_id),
        forall|k: int, k2: int|
            0 <= k < old(r)@.len() && 0 <= k2 < final(r)@.len() && #[trigger] old(r)@[k].name@
                == cand.name@ && #[trigger] final(r)@[k2].name@ == cand.name@ ==> spec_uid(
                final(r)@[k2].config@.server_id,
            ) >= spec_uid(old(r)@[k].config@.server_id),
{
    let ghost orig = r@;
    let mut pos: usize = 0;
    while pos < r.len() && str_pos_lt(r, pos, &cand)
        invariant
            r@ == orig,
            pos <= r@.len(),
            forall|k: int| 0 <= k < pos ==> lex_lt(#[trigger] r@[k].name@, cand.name@),
        decreases r@.len() - pos,
    {
        pos = pos + 1;
    }
    if pos < r.len() && r[pos].name == cand.name {
        // only the entry at the scan position can carry this name
        assert forall|k: int|
            0 <= k < orig.len() && #[trigger] orig[k].name@ == cand.name@ implies k == pos by {
            if k < pos {
                lemma_lex_asym(orig[k].name@, cand.name@);
            } else if k > pos {
                lemma_lex_asym(orig[pos as int].name@, orig[k].name@);
            }
        }
        // same display name: keep the entry with the greater identifier
        if uid_value(cand.config.server_id) > uid_value(r[pos].config.server_id) {
            r.set(pos, cand);
            assert forall|k: int|
                0 <= k < orig.len() implies name_listed(r@, #[trigger] orig[k].name@) by {
                assert(r@[k].name@ == orig[k].name@);
            }
            assert forall|k: int|
                0 <= k < r@.len() && #[trigger] r@[k].name@ == cand.name@ implies k == pos by {
                if k != pos {
                    assert(r@[k] == orig[k]);
                }
            }
        } else {
            assert(r@[pos as int].name@ == cand.name@);
        }
        assert(sorted_by_name(r@));
    } else {
        proof {
            if pos < r@.len() {
                lemma_lex_total(cand.name@, r@[pos as int].name@);
            }
        }
        r.insert(pos, cand);
        proof {
            orig.insert_ensures(pos as int, cand);
        }
        assert forall|i: int, j: int| 0 <= i < j < r@.len() implies lex_lt(
            r@[i].name@,
            r@[j].name@,
        ) by {
            if j < pos {
                assert(r@[i] == orig[i]);
                assert(r@[j] == orig[j]);
            } else if j == pos {
                assert(r@[i] == orig[i]);
                assert(r@[j] == cand);
            } else {
                assert(r@[j] == orig[j - 1]);
                if i < pos {
                    assert(r@[i] == orig[i]);
                    assert(lex_lt(orig[i].name@, orig[j - 1].name@));
                } else if i == pos {
                    assert(r@[i] == cand);
                    assert(lex_lt(cand.name@, orig[pos as int].name@));
                    if j - 1 > pos {
                        lemma_lex_trans(cand.name@, orig[pos as int].name@, orig[j - 1].name@);
                    }
                } else {
                    assert(r@[i] == orig[i - 1]);
                    assert(lex_lt(orig[i - 1].name@, orig[j - 1].name@));
                }
            }
        }
        assert forall|k: int| 0 <= k < orig.len() implies name_listed(r@, #[trigger] orig[k].name@)
            by {
            if k < pos {
                assert(r@[k].name@ == orig[k].name@);
            } else {
                assert(r@[k + 1].name@ == orig[k].name@);
            }
        }
        assert(r@[pos as int].name@ == cand.name@);
        // no other entry carries the inserted name
        assert forall|k: int|
            0 <= k < orig.len() implies #[trigger] orig[k].name@ != cand.name@ by {
            if k < pos {
                if orig[k].name@ == cand.name@ {
                    lemma_lex_asym(orig[k].name@, cand.name@);
                }
            } else if k > pos {
                assert(lex_lt(orig[pos as int].name@, orig[k].name@));
                assert(lex_lt(cand.name@, orig[pos as int].name@));
                lemma_lex_trans(cand.name@, orig[pos as int].name@, orig[k].name@);
                if orig[k].name@ == cand.name@ {
                    lemma_lex_asym(cand.name@, orig[k].name@);
                }
            }
        }
        assert forall|k: int|
            0 <= k < r@.len() && #[trigger] r@[k].name@ == cand.name@ implies k == pos by {
            if k < pos {
                assert(r@[k] == orig[k]);
            } else if k > pos {
                assert(r@[k] == orig[k - 1]);
            }
        }
    }
}

/// Whether the candidate at `pos` sorts strictly before `cand`.
fn str_pos_lt(r: &Vec<Candidate>, pos: usize, cand: &Candidate) -> (b: bool)
    requires
        pos < r@.len(),
    ensures
        b == lex_lt(r@[pos as int].name@, cand.name@),
{
    crate::text::str_lex_lt(r[pos].name.as_str(), cand.name.as_str())
}

/// Computes the relay candidates for one request: every shared guild that
/// has a stored configuration with a moderator role, each paired with that
/// configuration, strictly sorted by display name. When two shared guilds
/// carry the same display name, one of them provides the configuration (the
/// one with the greater platform identifier).
pub fn candidate_list(shared: &Vec<SharedGuild>, configs: &Vec<Config>) -> (r: Vec<Candidate>)
    ensures
        sorted_by_name(r@),
        forall|k: int|
            0 <= k < r@.len() ==> is_candidate_entry(shared@, configs@, #[trigger] r@[k]@),
        forall|i: int|
            0 <= i < shared@.len() && has_moderated_config(configs@, #[trigger] shared@[i].id)
                ==> name_listed(r@, shared@[i].name@),
        forall|i: int, k: int|
            0 <= i < shared@.len() && 0 <= k < r@.len() && #[trigger] shared@[i].name@
                == #[trigger] r@[k].name@ && has_moderated_config(configs@, shared@[i].id)
                ==> spec_uid(r@[k].config@.server_id) >= shared@[i].id,
{
    let mut r: Vec<Candidate> = Vec::new();
    let mut i: usize = 0;
    while i < shared.len()
        invariant
            i <= shared@.len(),
            sorted_by_name(r@),
            forall|k: int|
                0 <= k < r@.len() ==> is_candidate_entry(shared@, configs@, #[trigger] r@[k]@),
            forall|i2: int|
                0 <= i2 < i && has_moderated_config(configs@, #[trigger] shared@[i2].id)
                    ==> name_listed(r@, shared@[i2].name@),
            forall|i2: int, k: int|
                0 <= i2 < i && 0 <= k < r@.len() && #[trigger] shared@[i2].name@
                    == #[trigger] r@[k].name@ && has_moderated_config(configs@, shared@[i2].id)
                    ==> spec_uid(r@[k].config@.server_id) >= shared@[i2].id,
        decreases shared@.len() - i,
    {
        match find_config(configs, shared[i].id) {
            Some(j) => {
                let cand = Candidate {
                    name: shared[i].name.clone(),
                    config: configs[j].duplicate(),
                };
                proof {
                    let ghost ii = i as int;
                    let ghost jj = j as int;
                    assert(shared@[ii].name@ == cand@.name && configs@[jj]@ == cand@.config
                        && spec_id_matches(configs@[jj]@.server_id, shared@[ii].id)
                        && cand@.config.moderator_role is Some);
                    assert(is_candidate_entry(shared@, configs@, cand@));
                    // the stored column is the identifier's bit pattern
                    assert(spec_uid(cand@.config.server_id) == shared@[ii].id);
                }
                let ghost before = r@;
                insert_candidate(&mut r, cand);
                assert forall|k: int|
                    0 <= k < r@.len() implies is_candidate_entry(
                    shared@,
                    configs@,
                    #[trigger] r@[k]@,
                ) by {
                    if before.contains(r@[k]) {
                        let kb = choose|kb: int| 0 <= kb < before.len() && before[kb] == r@[k];
                        assert(is_candidate_entry(shared@, configs@, before[kb]@));
                    }
                }
                assert forall|i2: int, k: int|
                    0 <= i2 < i + 1 && 0 <= k < r@.len() && #[trigger] shared@[i2].name@
                        == #[trigger] r@[k].name@ && has_moderated_config(
                    configs@,
                    shared@[i2].id,
                ) implies spec_uid(r@[k].config@.server_id) >= shared@[i2].id by {
                    if i2 == i as int {
                        assert(r@[k].name@ == cand.name@);
                        assert(spec_uid(r@[k].config@.server_id) >= spec_uid(
                            cand.config@.server_id,
                        ));
                    } else {
                        if before.contains(r@[k]) {
                            let kb = choose|kb: int|
                                0 <= kb < before.len() && before[kb] == r@[k];
                            assert(spec_uid(before[kb].config@.server_id) >= shared@[i2].id);
                        } else {
                            // the entry is the fresh candidate, so an entry
                            // with this name already existed and it had won
                            // against every earlier guild of this name
                            assert(r@[k] == cand);
                            assert(name_listed(before, shared@[i2].name@));
                            let k0 = choose|k0: int|
                                0 <= k0 < before.len() && #[trigger] before[k0].name@
                                    == shared@[i2].name@;
                            assert(before[k0].name@ == cand.name@);
                            assert(spec_uid(r@[k].config@.server_id) >= spec_uid(
                                before[k0].config@.server_id,
                            ));
                            assert(spec_uid(before[k0].config@.server_id) >= shared@[i2].id);
                        }
                    }
                }
            },
            None => {},
        }
        i = i + 1;
    }
    r
}

} // verus!
