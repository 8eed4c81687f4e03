//! The player's deck of reactor modules and the enemy's list of actions.
use std::collections::VecDeque;

use rand::rngs::ThreadRng;
use vstd::multiset::Multiset;
use vstd::prelude::*;

use crate::game::module::card;
use crate::game::module::Card;
use crate::game::module::Module;
use crate::game::module::ModuleAction;
use crate::game::module::ModuleStatus;
use crate::rng::random_index;

verus! {

broadcast use vstd::seq_lib::group_seq_properties, vstd::multiset::group_multiset_properties,
    vstd::multiset::group_multiset_axioms;

/// The player's ship and its modules.
///
/// Modules move between `storage` (the draw pile), `hand`, and the `reactor`
/// slots; `action_queue` holds the reactor slots activated in the current chain.
pub struct PlayerDeck {
    pub name: String,
    /// Hit points of the player's ship at the start of a level.
    pub max_health: i64,
    /// Whole heat units a module may hold before it overheats.
    pub heat_capacity: u64,
    pub hand_size: usize,
    pub weapons: Vec<Module>,
    pub storage: Vec<Module>,
    pub hand: Vec<Module>,
    pub reactor: Vec<Module>,
    pub hand_idx: usize,
    pub just_used_storage: bool,
    pub flux: u64,
    pub chain: u64,
    pub action_queue: VecDeque<usize>,
    pub last_action: ModuleAction,
    pub last_touched_idx: Option<usize>,
}

/// The mathematical value of a [`PlayerDeck`].
#[verifier::ext_equal]
pub struct DeckView {
    pub name: Seq<char>,
    pub max_health: i64,
    pub heat_capacity: u64,
    pub hand_size: usize,
    pub weapons: Seq<Module>,
    pub storage: Seq<Module>,
    pub hand: Seq<Module>,
    pub reactor: Seq<Module>,
    pub hand_idx: usize,
    pub just_used_storage: bool,
    pub flux: u64,
    pub chain: u64,
    pub action_queue: Seq<usize>,
    pub last_action: ModuleAction,
    pub last_touched_idx: Option<usize>,
}


pub open spec fn card_fn() -> spec_fn(Module) -> Card {
    |m: Module| card(m)
}

/// The cards of a sequence of modules.
pub open spec fn cards(s: Seq<Module>) -> Multiset<Card> {
    s.map_values(card_fn()).to_multiset()
}

/// The card a reactor slot holds: none when the slot is empty.
pub open spec fn slot_cards(m: Module) -> Multiset<Card> {
    if m.status == ModuleStatus::SlotEmpty {
        Multiset::empty()
    } else {
        Multiset::singleton(card(m))
    }
}

/// The cards held in the reactor's slots.
pub open spec fn reactor_cards(s: Seq<Module>) -> Multiset<Card>
    decreases s.len(),
{
    if s.len() == 0 {
        Multiset::empty()
    } else {
        reactor_cards(s.drop_last()).add(slot_cards(s.last()))
    }
}

/// Every card the player owns: in storage, in hand, and in the reactor.
pub open spec fn deck_cards(v: DeckView) -> Multiset<Card> {
    cards(v.storage).add(cards(v.hand)).add(reactor_cards(v.reactor))
}

proof fn lemma_cards_push(s: Seq<Module>, m: Module)
    ensures
        cards(s.push(m)) == cards(s).insert(card(m)),
{
    broadcast use vstd::seq_lib::group_to_multiset_ensures;

    assert(s.push(m).map_values(card_fn()) =~= s.map_values(card_fn()).push(card(m)));
}

proof fn lemma_cards_remove(s: Seq<Module>, i: int)
    requires
        0 <= i < s.len(),
    ensures
        cards(s.remove(i)) == cards(s).remove(card(s[i])),
{
    broadcast use vstd::seq_lib::group_to_multiset_ensures;

    assert(s.remove(i).map_values(card_fn()) =~= s.map_values(card_fn()).remove(i));
}

proof fn lemma_cards_insert(s: Seq<Module>, i: int, m: Module)
    requires
        0 <= i <= s.len(),
    ensures
        cards(s.insert(i, m)) == cards(s).insert(card(m)),
{
    broadcast use vstd::seq_lib::group_to_multiset_ensures;

    assert(s.insert(i, m).map_values(card_fn()) =~= s.map_values(card_fn()).insert(i, card(m)));
}

proof fn lemma_cards_concat(a: Seq<Module>, b: Seq<Module>)
    ensures
        cards(a + b) == cards(a).add(cards(b)),
{
    broadcast use vstd::seq_lib::lemma_multiset_commutative;

    assert((a + b).map_values(card_fn()) =~= a.map_values(card_fn()) + b.map_values(card_fn()));
}

proof fn lemma_cards_contains(s: Seq<Module>, i: int)
    requires
        0 <= i < s.len(),
    ensures
        cards(s).count(card(s[i])) > 0,
{
    broadcast use vstd::seq_lib::group_to_multiset_ensures;

    assert(s.map_values(card_fn())[i] == card(s[i]));
    assert(s.map_values(card_fn()).contains(card(s[i])));
}

proof fn lemma_cards_update_same_card(s: Seq<Module>, i: int, m: Module)
    requires
        0 <= i < s.len(),
        card(m) == card(s[i]),
    ensures
        cards(s.update(i, m)) == cards(s),
{
    assert(s.update(i, m).map_values(card_fn()) =~= s.map_values(card_fn()));
}

proof fn lemma_cards_swap_remove(s: Seq<Module>, i: int)
    requires
        0 <= i < s.len(),
    ensures
        cards(s.update(i, s.last()).drop_last()).insert(card(s[i])) == cards(s),
{
    let n = s.len() - 1;
    let t = s.update(i, s.last());
    lemma_cards_remove(s, n);
    lemma_cards_contains(s, n);
    lemma_cards_contains(s, i);
    if i == n {
        assert(t.drop_last() =~= s.remove(n));
        assert(cards(t.drop_last()).insert(card(s[i])) =~= cards(s));
    } else {
        let r = s.remove(n);
        assert(t.drop_last() =~= r.update(i, s.last()));
        assert(r[i] == s[i]);
        assert(cards(r.update(i, s.last())) =~= cards(r).insert(card(s.last())).remove(card(r[i]))) by {
            broadcast use vstd::seq_lib::group_to_multiset_ensures;

            assert(r.update(i, s.last()).map_values(card_fn()) =~= r.map_values(card_fn()).update(
                i,
                card(s.last()),
            ));
        }
        assert(cards(t.drop_last()).insert(card(s[i])) =~= cards(s));
    }
}

proof fn lemma_reactor_cards_update(s: Seq<Module>, i: int, m: Module)
    requires
        0 <= i < s.len(),
    ensures
        reactor_cards(s.update(i, m)).add(slot_cards(s[i])) == reactor_cards(s).add(slot_cards(m)),
    decreases s.len(),
{
    let u = s.update(i, m);
    if i == s.len() - 1 {
        assert(u.drop_last() =~= s.drop_last());
        assert(reactor_cards(u).add(slot_cards(s[i])) =~= reactor_cards(s).add(slot_cards(m)));
    } else {
        let d = s.drop_last();
        lemma_reactor_cards_update(d, i, m);
        assert(u.drop_last() =~= d.update(i, m));
        assert(u.last() == s.last());
        assert(d[i] == s[i]);
        assert(reactor_cards(u) == reactor_cards(d.update(i, m)).add(slot_cards(s.last())));
        assert(reactor_cards(s) == reactor_cards(d).add(slot_cards(s.last())));
        assert forall|x: Card|
            #[trigger] reactor_cards(u).add(slot_cards(s[i])).count(x) == reactor_cards(s).add(
                slot_cards(m),
            ).count(x) by {
            assert(reactor_cards(d.update(i, m)).add(slot_cards(d[i])).count(x) == reactor_cards(
                d,
            ).add(slot_cards(m)).count(x));
        }
        assert(reactor_cards(u).add(slot_cards(s[i])) =~= reactor_cards(s).add(slot_cards(m)));
    }
}


proof fn lemma_reactor_cards_same_slot(s: Seq<Module>, i: int, m: Module)
    requires
        0 <= i < s.len(),
        slot_cards(m) == slot_cards(s[i]),
    ensures
        reactor_cards(s.update(i, m)) == reactor_cards(s),
{
    lemma_reactor_cards_update(s, i, m);
    assert forall|x: Card| #[trigger] reactor_cards(s.update(i, m)).count(x) == reactor_cards(s).count(x) by {
        assert(reactor_cards(s.update(i, m)).add(slot_cards(s[i])).count(x) == reactor_cards(s).add(
            slot_cards(m),
        ).count(x));
    }
    assert(reactor_cards(s.update(i, m)) =~= reactor_cards(s));
}

proof fn lemma_reactor_cards_empty_slot(s: Seq<Module>, i: int, m: Module)
    requires
        0 <= i < s.len(),
        m.status == ModuleStatus::SlotEmpty,
    ensures
        reactor_cards(s.update(i, m)).add(slot_cards(s[i])) == reactor_cards(s),
{
    lemma_reactor_cards_update(s, i, m);
    assert(reactor_cards(s).add(slot_cards(m)) =~= reactor_cards(s));
}

proof fn lemma_reactor_cards_fill_slot(s: Seq<Module>, i: int, m: Module)
    requires
        0 <= i < s.len(),
        s[i].status == ModuleStatus::SlotEmpty,
    ensures
        reactor_cards(s.update(i, m)) == reactor_cards(s).add(slot_cards(m)),
{
    lemma_reactor_cards_update(s, i, m);
    assert(reactor_cards(s.update(i, m)).add(slot_cards(s[i])) =~= reactor_cards(s.update(i, m)));
}

proof fn lemma_reactor_cards_all_empty(s: Seq<Module>)
    requires
        forall|i: int| 0 <= i < s.len() ==> #[trigger] s[i].status == ModuleStatus::SlotEmpty,
    ensures
        reactor_cards(s) == Multiset::<Card>::empty(),
    decreases s.len(),
{
    if s.len() > 0 {
        lemma_reactor_cards_all_empty(s.drop_last());
        assert(reactor_cards(s) =~= Multiset::<Card>::empty());
    }
}

proof fn lemma_returned_from_cards(s: Seq<Module>)
    ensures
        cards(returned_from(s)) == reactor_cards(s),
    decreases s.len(),
{
    if s.len() > 0 {
        lemma_returned_from_cards(s.drop_last());
        if s.last().status != ModuleStatus::SlotEmpty {
            lemma_cards_push(returned_from(s.drop_last()), returned(s.last()));
            assert(cards(returned_from(s)) =~= reactor_cards(s));
        } else {
            assert(cards(returned_from(s)) =~= reactor_cards(s));
        }
    } else {
        assert(returned_from(s).map_values(card_fn()) =~= Seq::<Card>::empty());
        assert(cards(returned_from(s)) =~= reactor_cards(s)) by {
            broadcast use vstd::seq_lib::group_to_multiset_ensures;
        }
    }
}

/// Drawing a module from storage keeps every card the player owns.
pub proof fn lemma_draw_conserves_cards(v: DeckView, i: int)
    requires
        0 <= i < v.storage.len(),
    ensures
        deck_cards(v.draw_from_idx(i)) == deck_cards(v),
        cards(v.draw_from_idx(i).storage).add(cards(v.draw_from_idx(i).hand)) == cards(v.storage).add(
            cards(v.hand),
        ),
{
    lemma_cards_swap_remove(v.storage, i);
    lemma_cards_push(v.hand, v.storage[i]);
    let w = v.draw_from_idx(i);
    assert(cards(w.storage).add(cards(w.hand)) =~= cards(v.storage).add(cards(v.hand)));
    assert(deck_cards(w) =~= deck_cards(v));
}

/// Drawing moves one module, as it is, from storage to the hand: storage and
/// hand together hold the same modules.
pub proof fn lemma_draw_keeps_modules(v: DeckView, i: int)
    requires
        0 <= i < v.storage.len(),
    ensures
        v.draw_from_idx(i).storage.to_multiset().add(v.draw_from_idx(i).hand.to_multiset())
            == v.storage.to_multiset().add(v.hand.to_multiset()),
{
    broadcast use vstd::seq_lib::group_to_multiset_ensures;
    broadcast use vstd::multiset::group_multiset_properties;

    let s = v.storage;
    let n = s.len() - 1;
    let r = s.remove(n);
    let t = s.update(i, s.last()).drop_last();
    assert(r.to_multiset() =~= s.to_multiset().remove(s[n]));
    if i == n {
        assert(t =~= r);
    } else {
        assert(t =~= r.update(i, s.last()));
        vstd::seq_lib::to_multiset_update(r, i, s.last());
        assert(r[i] == s[i]);
    }
    assert(s.contains(s[i]));
    assert(s.contains(s[n]));
    assert(t.to_multiset().insert(s[i]) =~= s.to_multiset());
    let w = v.draw_from_idx(i);
    assert(w.hand.to_multiset() =~= v.hand.to_multiset().insert(s[i]));
    assert(w.storage.to_multiset().add(w.hand.to_multiset()) =~= v.storage.to_multiset().add(
        v.hand.to_multiset(),
    ));
}

/// Drawing moves exactly one module from storage to the hand.
pub proof fn lemma_draw_moves_one(v: DeckView, i: int)
    requires
        0 <= i < v.storage.len(),
    ensures
        v.draw_from_idx(i).hand.len() == v.hand.len() + 1,
        v.draw_from_idx(i).storage.len() + 1 == v.storage.len(),
        v.draw_from_idx(i).hand_size == v.hand_size,
{
}

/// How many modules setup draws: enough to fill the hand, as far as storage lasts.
pub open spec fn setup_draw_count(v: DeckView) -> nat {
    if v.hand.len() >= v.hand_size {
        0
    } else {
        min_nat((v.hand_size - v.hand.len()) as nat, v.storage.len())
    }
}

/// Setup draws exactly `setup_draw_count` modules. A deck that has drawn `j` of
/// them, one module per draw, is still setting up while `j` is below that count,
/// and done once it reaches it; so repeated setup steps succeed exactly that many
/// times, and the hand ends with `setup_hand_len` modules.
pub proof fn lemma_setup_draws(v: DeckView, w: DeckView, j: nat)
    requires
        j <= setup_draw_count(v),
        w.hand_size == v.hand_size,
        w.hand.len() == v.hand.len() + j,
        w.storage.len() + j == v.storage.len(),
    ensures
        w.is_setup_done() <==> j == setup_draw_count(v),
        v.setup_hand_len() == v.hand.len() + setup_draw_count(v),
{
}

/// The deck after drawing the storage modules at the given indices, one after
/// another.
pub open spec fn drawn(v: DeckView, picks: Seq<int>) -> DeckView
    decreases picks.len(),
{
    if picks.len() == 0 {
        v
    } else {
        drawn(v, picks.drop_last()).draw_from_idx(picks.last())
    }
}

/// Each pick names a storage module at the time it is drawn.
pub open spec fn picks_valid(v: DeckView, picks: Seq<int>) -> bool {
    forall|i: int|
        0 <= i < picks.len() ==> 0 <= #[trigger] picks[i] < drawn(v, picks.take(i)).storage.len()
}

/// The setup loop: steps that draw while setup is not done succeed exactly
/// `setup_draw_count` times in a row. However the modules are picked, after `n`
/// such draws the hand has `n` more modules and storage `n` fewer, `n` never
/// exceeds the count, and setup is done exactly when `n` reaches it.
#[verifier::spinoff_prover]
#[verifier::rlimit(40)]
pub proof fn lemma_setup_loop(v: DeckView, picks: Seq<int>)
    requires
        picks_valid(v, picks),
        forall|i: int| 0 <= i < picks.len() ==> !(#[trigger] drawn(v, picks.take(i))).is_setup_done(),
    ensures
        picks.len() <= setup_draw_count(v),
        drawn(v, picks).hand.len() == v.hand.len() + picks.len(),
        drawn(v, picks).storage.len() + picks.len() == v.storage.len(),
        drawn(v, picks).hand_size == v.hand_size,
        drawn(v, picks).is_setup_done() <==> picks.len() == setup_draw_count(v),
    decreases picks.len(),
{
    if picks.len() > 0 {
        let n = picks.len() - 1;
        let p = picks.drop_last();
        assert forall|i: int| 0 <= i < p.len() implies 0 <= #[trigger] p[i] < drawn(
            v,
            p.take(i),
        ).storage.len() by {
            assert(p.take(i) =~= picks.take(i));
            assert(p[i] == picks[i]);
        }
        assert forall|i: int| 0 <= i < p.len() implies !(#[trigger] drawn(v, p.take(i))).is_setup_done() by {
            assert(p.take(i) =~= picks.take(i));
            assert(!drawn(v, picks.take(i)).is_setup_done());
        }
        lemma_setup_loop(v, p);
        assert(picks.take(n) =~= p);
        assert(!drawn(v, picks.take(n)).is_setup_done());
        assert(0 <= picks[n] < drawn(v, picks.take(n)).storage.len());
        lemma_setup_draws(v, drawn(v, p), p.len() as nat);
        lemma_draw_moves_one(drawn(v, p), picks.last());
    }
    lemma_setup_draws(v, drawn(v, picks), picks.len() as nat);
}

/// The deck after `n` power-up steps.
pub open spec fn powered(v: DeckView, n: nat) -> DeckView
    decreases n,
{
    if n == 0 {
        v
    } else {
        powered(v, (n - 1) as nat).step_reactor().0
    }
}

/// Powering up the reactor stops: step after step, it succeeds at most as many
/// times in a row as the reactor has inactive slots, each success using one up.
pub proof fn lemma_power_up_bounded(v: DeckView, n: nat)
    requires
        forall|j: nat| j < n ==> #[trigger] powered(v, j).step_reactor().1,
    ensures
        n <= inactive_count(v.reactor),
        inactive_count(powered(v, n).reactor) + n == inactive_count(v.reactor),
    decreases n,
{
    if n > 0 {
        let m = (n - 1) as nat;
        assert forall|j: nat| j < m implies #[trigger] powered(v, j).step_reactor().1 by {
            assert(j < n);
        }
        lemma_power_up_bounded(v, m);
        assert(powered(v, m).step_reactor().1);
        lemma_steps_make_progress(powered(v, m));
    }
}

/// Powering up never lowers the flux. A successful step activates one inactive
/// slot, heating it by the new chain; the chain restarts at one on a module with
/// no condition and otherwise grows by one (up to the largest `u64`); and the
/// flux becomes the larger of the flux before and the new chain. A step that
/// fails leaves chain, flux, reactor and queue alone.
pub proof fn lemma_power_up_flux(v: DeckView)
    requires
        v.reactor.len() <= usize::MAX,
    ensures
        ({
            let (w, ok) = v.step_reactor();
            &&& w.flux >= v.flux
            &&& ok ==> {
                let i = w.last_touched_idx.unwrap() as int;
                let m = v.reactor[i];
                &&& 0 <= i < v.reactor.len()
                &&& m.status == ModuleStatus::SlotInactive
                &&& (m.condition == ModuleAction::Nothing ==> w.chain == 1)
                &&& (m.condition != ModuleAction::Nothing && v.chain < u64::MAX ==> w.chain == v.chain + 1)
                &&& (m.condition != ModuleAction::Nothing && v.chain == u64::MAX ==> w.chain == u64::MAX)
                &&& w.flux >= w.chain
                &&& (w.flux == v.flux || w.flux == w.chain)
                &&& w.reactor.len() == v.reactor.len()
                &&& w.reactor[i].status == ModuleStatus::SlotActive
                &&& w.reactor[i].condition == m.condition
                &&& w.reactor[i].effect == m.effect
                &&& (m.heat + w.chain <= u64::MAX ==> w.reactor[i].heat == m.heat + w.chain)
                &&& (forall|k: int| 0 <= k < v.reactor.len() && k != i ==> w.reactor[k] == v.reactor[k])
                &&& w.action_queue == v.action_queue.push(i as usize)
                &&& w.last_action == m.effect
            }
            &&& !ok ==> w.flux == v.flux && w.chain == v.chain && w.reactor == v.reactor
                && w.action_queue == v.action_queue
        }),
{
    let t = scan(v.reactor, ModuleQuery::TriggeredBy(v.last_action), 0);
    lemma_scan(v.reactor, ModuleQuery::TriggeredBy(v.last_action), 0);
    lemma_scan(v.reactor, ModuleQuery::TriggeredBy(ModuleAction::Nothing), 0);
}

/// An inactive slot whose condition is the given action.
pub open spec fn inactive_on(m: Module, a: ModuleAction) -> bool {
    m.status == ModuleStatus::SlotInactive && m.condition == a
}

/// Powering up activates the first inactive slot triggered by the last action,
/// or when there is none the first inactive slot that starts a chain (its
/// condition is no action); it fails exactly when neither exists.
pub proof fn lemma_power_up_picks(v: DeckView)
    requires
        v.reactor.len() <= usize::MAX,
    ensures
        ({
            let (w, ok) = v.step_reactor();
            let a = v.last_action;
            let n = ModuleAction::Nothing;
            &&& ok == exists|k: int| 0 <= k < v.reactor.len()
                && (inactive_on(#[trigger] v.reactor[k], a) || inactive_on(v.reactor[k], n))
            &&& ok ==> {
                let i = w.last_touched_idx.unwrap() as int;
                ||| inactive_on(v.reactor[i], a)
                    && forall|k: int| 0 <= k < i ==> !inactive_on(#[trigger] v.reactor[k], a)
                ||| inactive_on(v.reactor[i], n)
                    && (forall|k: int| 0 <= k < v.reactor.len() ==> !inactive_on(#[trigger] v.reactor[k], a))
                    && forall|k: int| 0 <= k < i ==> !inactive_on(#[trigger] v.reactor[k], n)
            }
        }),
{
    let a = v.last_action;
    let n = ModuleAction::Nothing;
    lemma_scan(v.reactor, ModuleQuery::TriggeredBy(a), 0);
    lemma_scan(v.reactor, ModuleQuery::TriggeredBy(n), 0);
    if exists|k: int| 0 <= k < v.reactor.len()
        && (inactive_on(#[trigger] v.reactor[k], a) || inactive_on(v.reactor[k], n)) {
        let k = choose|k: int| 0 <= k < v.reactor.len()
            && (inactive_on(#[trigger] v.reactor[k], a) || inactive_on(v.reactor[k], n));
        assert(selects(ModuleQuery::TriggeredBy(a), v.reactor[k]) || selects(ModuleQuery::TriggeredBy(n), v.reactor[k]));
    }
    match v.next_matching_module() {
        Some(i) => {
            assert(selects(ModuleQuery::TriggeredBy(a), v.reactor[i]) || selects(ModuleQuery::TriggeredBy(n), v.reactor[i]));
        },
        None => {},
    }
}

/// Firing the front of the queue yields that slot's effect and changes nothing
/// in the reactor but that slot's status: it overheats when its heat is above
/// the reactor's capacity and is otherwise inactive again, keeping its heat.
pub proof fn lemma_fire_keeps_heat(v: DeckView)
    requires
        v.action_queue.len() > 0,
        v.action_queue[0] < v.reactor.len(),
    ensures
        ({
            let (w, a) = v.step_player();
            let i = v.action_queue[0] as int;
            let m = v.reactor[i];
            &&& a == Some(m.effect)
            &&& w.action_queue == v.action_queue.drop_first()
            &&& w.reactor.len() == v.reactor.len()
            &&& (forall|k: int| 0 <= k < v.reactor.len() && k != i ==> w.reactor[k] == v.reactor[k])
            &&& w.reactor[i].heat == m.heat
            &&& w.reactor[i].condition == m.condition
            &&& w.reactor[i].effect == m.effect
            &&& (m.heat > v.heat_capacity ==> w.reactor[i].status == ModuleStatus::SlotOverheated)
            &&& (m.heat <= v.heat_capacity ==> w.reactor[i].status == ModuleStatus::SlotInactive)
            &&& w.chain == v.chain && w.flux == v.flux
            &&& w.hand == v.hand && w.storage == v.storage
        }),
{
}

/// Once the queue is empty, the attack ends: chain and flux go back to zero,
/// and when no reactor slot is overheated or empty, one of the hottest slots
/// overheats; otherwise the reactor is kept.
pub proof fn lemma_attack_end(v: DeckView)
    requires
        v.action_queue.len() == 0,
    ensures
        ({
            let (w, a) = v.step_player();
            let full = v.reactor.len() > 0 && forall|k: int| 0 <= k < v.reactor.len()
                ==> #[trigger] v.reactor[k].status != ModuleStatus::SlotOverheated
                && v.reactor[k].status != ModuleStatus::SlotEmpty;
            &&& a is None
            &&& w.chain == 0 && w.flux == 0
            &&& w.reactor.len() == v.reactor.len()
            &&& !full ==> w.reactor == v.reactor
            &&& full ==> exists|h: int| #![trigger v.reactor[h]] 0 <= h < v.reactor.len()
                && (forall|k: int| 0 <= k < v.reactor.len() ==> #[trigger] v.reactor[k].heat <= v.reactor[h].heat)
                && w.reactor == v.reactor.update(h, Module { status: ModuleStatus::SlotOverheated, ..v.reactor[h] })
        }),
{
    lemma_scan(v.reactor, ModuleQuery::Overheated, 0);
    lemma_scan(v.reactor, ModuleQuery::Empty, 0);
    if v.reactor.len() > 0 {
        lemma_hottest(v.reactor);
        let h = hottest(v.reactor);
        let full = forall|k: int| 0 <= k < v.reactor.len()
                ==> #[trigger] v.reactor[k].status != ModuleStatus::SlotOverheated
                && v.reactor[k].status != ModuleStatus::SlotEmpty;
        if full {
            assert(v.next_available_slot() is None);
        } else {
            let k = choose|k: int| 0 <= k < v.reactor.len() && !(v.reactor[k].status != ModuleStatus::SlotOverheated
                && v.reactor[k].status != ModuleStatus::SlotEmpty);
            assert(selects(ModuleQuery::Overheated, v.reactor[k]) || selects(ModuleQuery::Empty, v.reactor[k]));
            assert(v.next_available_slot() is Some);
        }
    }
}

/// Moving the selection by `step` lands exactly `step` places away when that
/// place is in the hand; otherwise it stops at the first or the last module.
/// Nothing else in the deck changes.
pub proof fn lemma_advance_selected_moves(v: DeckView, step: isize)
    requires
        v.hand.len() <= usize::MAX,
    ensures
        ({
            let w = v.advance_selected(step);
            let t = v.hand_idx + step;
            &&& (0 <= t < v.hand.len() ==> w.hand_idx == t)
            &&& (t < 0 ==> w.hand_idx == 0)
            &&& (t >= v.hand.len() && v.hand.len() > 0 ==> w.hand_idx == v.hand.len() - 1)
            &&& (v.hand.len() == 0 ==> w.hand_idx == 0)
            &&& w == (DeckView { hand_idx: w.hand_idx, ..v })
        }),
{
}

/// The search for a module with a condition and an effect finds the first
/// module that has both, or none when no module has both.
pub proof fn lemma_find_matching(s: Seq<Module>, c: ModuleAction, e: ModuleAction)
    ensures
        match scan(s, ModuleQuery::Matches(c, e), 0) {
            Some(j) => 0 <= j < s.len() && s[j].condition == c && s[j].effect == e
                && forall|k: int| 0 <= k < j ==> !(#[trigger] s[k].condition == c && s[k].effect == e),
            None => forall|k: int| 0 <= k < s.len() ==> !(#[trigger] s[k].condition == c && s[k].effect == e),
        },
{
    lemma_scan(s, ModuleQuery::Matches(c, e), 0);
}

/// Drawing a weapon deals the weapon itself: when storage holds a module with
/// the weapon's card, the first such module moves to the end of the hand, and
/// storage and hand together keep the same modules; otherwise nothing changes.
pub proof fn lemma_weapon_drawn(v: DeckView, k: int)
    requires
        0 < k <= v.weapons.len(),
    ensures
        ({
            let u = v.with_weapons_drawn(k - 1);
            let w = v.with_weapons_drawn(k);
            let wp = v.weapons[k - 1];
            &&& (exists|j: int| 0 <= j < u.storage.len() && #[trigger] card(u.storage[j]) == card(wp)) ==> {
                &&& w.hand.len() == u.hand.len() + 1
                &&& w.hand.take(u.hand.len() as int) == u.hand
                &&& card(w.hand.last()) == card(wp)
                &&& w.storage.to_multiset().add(w.hand.to_multiset()) == u.storage.to_multiset().add(
                    u.hand.to_multiset(),
                )
            }
            &&& !(exists|j: int| 0 <= j < u.storage.len() && #[trigger] card(u.storage[j]) == card(wp))
                ==> w == u
        }),
{
    let u = v.with_weapons_drawn(k - 1);
    let wp = v.weapons[k - 1];
    lemma_find_matching(u.storage, wp.condition, wp.effect);
    match scan(u.storage, ModuleQuery::Matches(wp.condition, wp.effect), 0) {
        Some(p) => {
            lemma_draw_keeps_modules(u, p);
            assert(card(u.storage[p]) == card(wp));
            assert(u.draw_from_idx(p).hand.take(u.hand.len() as int) =~= u.hand);
        },
        None => {
            if exists|j: int| 0 <= j < u.storage.len() && #[trigger] card(u.storage[j]) == card(wp) {
                let j = choose|j: int| 0 <= j < u.storage.len() && #[trigger] card(u.storage[j]) == card(wp);
                assert(u.storage[j].condition == wp.condition && u.storage[j].effect == wp.effect);
            }
        },
    }
}

/// Every module a reset deals for the weapons carries the card of one of them.
pub proof fn lemma_weapons_dealt(v: DeckView, k: int)
    requires
        0 <= k <= v.weapons.len(),
    ensures
        v.with_weapons_drawn(k).hand.take(v.hand.len() as int) == v.hand,
        v.with_weapons_drawn(k).hand.len() >= v.hand.len(),
        forall|i: int| v.hand.len() <= i < v.with_weapons_drawn(k).hand.len() ==> exists|j: int|
            0 <= j < k && card(#[trigger] v.with_weapons_drawn(k).hand[i]) == card(v.weapons[j]),
    decreases k,
{
    if k <= 0 {
        assert(v.with_weapons_drawn(k).hand.take(v.hand.len() as int) =~= v.hand);
    } else {
        lemma_weapons_dealt(v, k - 1);
        lemma_weapon_drawn(v, k);
        let u = v.with_weapons_drawn(k - 1);
        let w = v.with_weapons_drawn(k);
        if w != u {
            assert(w.hand.take(v.hand.len() as int) =~= u.hand.take(v.hand.len() as int)) by {
                assert(w.hand.take(u.hand.len() as int) == u.hand);
                assert forall|i: int| 0 <= i < v.hand.len() implies w.hand[i] == u.hand[i] by {
                    assert(w.hand.take(u.hand.len() as int)[i] == w.hand[i]);
                }
            }
            assert forall|i: int| v.hand.len() <= i < w.hand.len() implies exists|j: int|
                0 <= j < k && card(#[trigger] w.hand[i]) == card(v.weapons[j]) by {
                if i < u.hand.len() {
                    assert(w.hand.take(u.hand.len() as int)[i] == w.hand[i]);
                    assert(u.hand[i] == w.hand[i]);
                    let j = choose|j: int| 0 <= j < k - 1 && card(#[trigger] u.hand[i]) == card(v.weapons[j]);
                    assert(0 <= j < k && card(w.hand[i]) == card(v.weapons[j]));
                } else {
                    assert(card(w.hand[i]) == card(v.weapons[k - 1]));
                }
            }
        }
    }
}

/// Playing the selected module puts it, inactive, into the first overheated
/// slot, or when none is overheated into the first empty one; the module that
/// was in an overheated slot goes back to storage. The module leaves the hand
/// and the other slots stay. Without a module, a slot, or such a slot nothing
/// changes.
pub proof fn lemma_play_places_module(v: DeckView)
    requires
        v.selection_playable(),
        v.reactor.len() <= usize::MAX,
    ensures
        ({
            let (w, ok) = v.play_selected();
            let free = exists|k: int| 0 <= k < v.reactor.len() && (#[trigger] v.reactor[k].status
                == ModuleStatus::SlotOverheated || v.reactor[k].status == ModuleStatus::SlotEmpty);
            &&& ok == (v.hand.len() > 0 && free)
            &&& !ok ==> w == v
            &&& ok ==> {
                let s = w.last_touched_idx.unwrap() as int;
                let old_slot = v.reactor[s];
                &&& 0 <= s < v.reactor.len()
                &&& (old_slot.status == ModuleStatus::SlotOverheated || old_slot.status == ModuleStatus::SlotEmpty)
                &&& (forall|k: int| 0 <= k < s ==> #[trigger] v.reactor[k].status != ModuleStatus::SlotOverheated)
                &&& (old_slot.status == ModuleStatus::SlotEmpty ==> forall|k: int|
                    0 <= k < v.reactor.len() ==> #[trigger] v.reactor[k].status != ModuleStatus::SlotOverheated
                        && (k < s ==> v.reactor[k].status != ModuleStatus::SlotEmpty))
                &&& w.reactor == v.reactor.update(s, Module { status: ModuleStatus::SlotInactive, ..v.hand[v.hand_idx as int] })
                &&& w.hand == v.hand.remove(v.hand_idx as int)
                &&& (old_slot.status == ModuleStatus::SlotOverheated ==> w.storage == v.storage.push(returned(old_slot)))
                &&& (old_slot.status == ModuleStatus::SlotEmpty ==> w.storage == v.storage)
            }
        }),
{
    lemma_scan(v.reactor, ModuleQuery::Overheated, 0);
    lemma_scan(v.reactor, ModuleQuery::Empty, 0);
    let free = exists|k: int| 0 <= k < v.reactor.len() && (#[trigger] v.reactor[k].status
        == ModuleStatus::SlotOverheated || v.reactor[k].status == ModuleStatus::SlotEmpty);
    if free {
        let k = choose|k: int| 0 <= k < v.reactor.len() && (#[trigger] v.reactor[k].status
            == ModuleStatus::SlotOverheated || v.reactor[k].status == ModuleStatus::SlotEmpty);
        assert(selects(ModuleQuery::Overheated, v.reactor[k]) || selects(ModuleQuery::Empty, v.reactor[k]));
    }
    match v.next_available_slot() {
        Some(s) => {
            assert(selects(ModuleQuery::Overheated, v.reactor[s]) || selects(ModuleQuery::Empty, v.reactor[s]));
        },
        None => {},
    }
}

proof fn lemma_cleared_conserves_cards(v: DeckView)
    ensures
        deck_cards(v.cleared()) == deck_cards(v),
{
    let c = v.cleared();
    lemma_cards_concat(v.storage + returned_from(v.reactor), v.hand);
    lemma_cards_concat(v.storage, returned_from(v.reactor));
    lemma_returned_from_cards(v.reactor);
    lemma_reactor_cards_all_empty(c.reactor);
    assert(c.hand.map_values(card_fn()) =~= Seq::<Card>::empty());
    assert(cards(c.hand) =~= Multiset::<Card>::empty()) by {
        broadcast use vstd::seq_lib::group_to_multiset_ensures;
    }
    assert(deck_cards(c) =~= deck_cards(v));
}

/// Drawing weapons into a cleared hand keeps the cards and only moves modules from
/// storage to the hand.
proof fn lemma_weapons_drawn(v: DeckView, k: int)
    requires
        v.hand.len() == 0,
        !v.just_used_storage,
        k <= v.weapons.len(),
    ensures
        ({
            let u = v.with_weapons_drawn(k);
            &&& deck_cards(u) == deck_cards(v)
            &&& u.hand.len() + u.storage.len() == v.storage.len()
            &&& u.just_used_storage == (u.hand.len() > 0)
            &&& u == (DeckView { storage: u.storage, hand: u.hand, just_used_storage: u.just_used_storage, ..v })
        }),
    decreases k,
{
    if k > 0 {
        lemma_weapons_drawn(v, k - 1);
        let u = v.with_weapons_drawn(k - 1);
        let w = v.weapons[k - 1];
        lemma_scan(u.storage, ModuleQuery::Matches(w.condition, w.effect), 0);
        match scan(u.storage, ModuleQuery::Matches(w.condition, w.effect), 0) {
            Some(p) => {
                lemma_draw_conserves_cards(u, p);
            },
            None => {},
        }
    }
}

proof fn lemma_weapons_keep_modules(v: DeckView, k: int)
    ensures
        v.with_weapons_drawn(k).storage.to_multiset().add(v.with_weapons_drawn(k).hand.to_multiset())
            == v.storage.to_multiset().add(v.hand.to_multiset()),
    decreases k,
{
    if k > 0 {
        lemma_weapons_keep_modules(v, k - 1);
        let u = v.with_weapons_drawn(k - 1);
        let w = v.weapons[k - 1];
        lemma_scan(u.storage, ModuleQuery::Matches(w.condition, w.effect), 0);
        match scan(u.storage, ModuleQuery::Matches(w.condition, w.effect), 0) {
            Some(p) => {
                lemma_draw_keeps_modules(u, p);
            },
            None => {},
        }
    }
}

/// Where a reset stands before its random draws holds, in storage and hand, the
/// modules of storage, the modules taken back from the reactor (face up and cold),
/// and the hand.
proof fn lemma_reset_start_modules(v: DeckView)
    ensures
        v.reset_start().storage.to_multiset().add(v.reset_start().hand.to_multiset()) == (v.storage
            + returned_from(v.reactor) + v.hand).to_multiset(),
{
    broadcast use vstd::seq_lib::group_to_multiset_ensures;
    broadcast use vstd::multiset::group_multiset_properties;

    let c = v.cleared();
    lemma_weapons_keep_modules(c, v.weapons.len() as int);
    assert(c.hand =~= Seq::<Module>::empty());
    assert(c.hand.to_multiset() =~= Multiset::<Module>::empty());
    assert(c.storage.to_multiset().add(c.hand.to_multiset()) =~= c.storage.to_multiset());
}

proof fn lemma_reset_start_conserves_cards(v: DeckView)
    ensures
        deck_cards(v.reset_start()) == deck_cards(v),
        v.reset_start().reactor == emptied_slots(v.reactor),
{
    lemma_cleared_conserves_cards(v);
    lemma_weapons_drawn(v.cleared(), v.weapons.len() as int);
}


/// Discarding a reactor module keeps every card the player owns.
pub proof fn lemma_discard_module_conserves_cards(v: DeckView, idx: int)
    requires
        0 <= idx < v.reactor.len(),
    ensures
        deck_cards(v.discard_module(idx)) == deck_cards(v),
{
    let slot = v.reactor[idx];
    if slot.status != ModuleStatus::SlotEmpty {
        let emptied = Module { status: ModuleStatus::SlotEmpty, ..slot };
        lemma_reactor_cards_empty_slot(v.reactor, idx, emptied);
        lemma_cards_push(v.storage, returned(slot));
        assert(deck_cards(v.discard_module(idx)) =~= deck_cards(v));
    }
}

/// Playing the selected module keeps every card the player owns.
pub proof fn lemma_play_selected_conserves_cards(v: DeckView)
    requires
        v.selection_playable(),
    ensures
        deck_cards(v.play_selected().0) == deck_cards(v),
{
    if v.hand.len() > 0 && v.reactor.len() > 0 {
        lemma_scan(v.reactor, ModuleQuery::Overheated, 0);
        lemma_scan(v.reactor, ModuleQuery::Empty, 0);
        match v.next_available_slot() {
            None => {},
            Some(slot) => {
                let selected = v.hand[v.hand_idx as int];
                let removed = DeckView {
                    hand: v.hand.remove(v.hand_idx as int),
                    hand_idx: index_after_removal(v.hand_idx, v.hand.len()),
                    ..v
                };
                lemma_cards_remove(v.hand, v.hand_idx as int);
                lemma_cards_contains(v.hand, v.hand_idx as int);
                lemma_discard_module_conserves_cards(removed, slot);
                let emptied = removed.discard_module(slot);
                let placed = Module { status: ModuleStatus::SlotInactive, ..selected };
                assert(emptied.reactor[slot].status == ModuleStatus::SlotEmpty);
                lemma_reactor_cards_fill_slot(emptied.reactor, slot, placed);
                assert(deck_cards(removed).insert(card(selected)) =~= deck_cards(v));
                assert(deck_cards(v.play_selected().0) =~= deck_cards(v));
            },
        }
    }
}

/// Discarding the selected module into storage keeps every card the player owns.
pub proof fn lemma_discard_selected_conserves_cards(v: DeckView, storage_idx: int)
    requires
        v.selection_in_hand(),
        0 <= storage_idx <= v.storage.len(),
    ensures
        deck_cards(v.discard_selected_at(storage_idx).0) == deck_cards(v),
{
    if v.hand.len() > 0 {
        let selected = v.hand[v.hand_idx as int];
        lemma_cards_remove(v.hand, v.hand_idx as int);
        lemma_cards_contains(v.hand, v.hand_idx as int);
        lemma_cards_insert(v.storage, storage_idx, selected);
        assert(deck_cards(v.discard_selected_at(storage_idx).0) =~= deck_cards(v));
    }
}

/// Powering up the reactor keeps every card the player owns.
pub proof fn lemma_step_reactor_conserves_cards(v: DeckView)
    ensures
        deck_cards(v.step_reactor().0) == deck_cards(v),
{
    lemma_scan(v.reactor, ModuleQuery::TriggeredBy(v.last_action), 0);
    lemma_scan(v.reactor, ModuleQuery::TriggeredBy(ModuleAction::Nothing), 0);
    match v.next_matching_module() {
        Some(i) => {
            let m = v.reactor[i];
            let chain = if m.condition == ModuleAction::Nothing {
                1
            } else {
                sat_add(v.chain, 1)
            };
            let active = Module { status: ModuleStatus::SlotActive, heat: sat_add(m.heat, chain), ..m };
            assert(slot_cards(active) == slot_cards(m));
            lemma_reactor_cards_same_slot(v.reactor, i, active);
            assert(deck_cards(v.step_reactor().0) =~= deck_cards(v));
        },
        None => {},
    }
}

/// A step of the player's attack keeps every card the player owns, when the slots
/// in the action queue hold modules.
pub proof fn lemma_step_player_conserves_cards(v: DeckView)
    requires
        v.wf(),
        forall|i: int|
            0 <= i < v.action_queue.len() ==> v.reactor[#[trigger] v.action_queue[i] as int].status
                != ModuleStatus::SlotEmpty,
    ensures
        deck_cards(v.step_player().0) == deck_cards(v),
{
    if v.action_queue.len() > 0 {
        let idx = v.action_queue[0] as int;
        let m = v.reactor[idx];
        let status = if m.heat > v.heat_capacity {
            ModuleStatus::SlotOverheated
        } else {
            ModuleStatus::SlotInactive
        };
        assert(v.reactor[v.action_queue[0] as int].status != ModuleStatus::SlotEmpty);
        lemma_reactor_cards_same_slot(v.reactor, idx, Module { status, ..m });
        assert(deck_cards(v.step_player().0) =~= deck_cards(v));
    } else if v.next_available_slot() is None && v.reactor.len() > 0 {
        lemma_scan(v.reactor, ModuleQuery::Overheated, 0);
        lemma_scan(v.reactor, ModuleQuery::Empty, 0);
        lemma_hottest(v.reactor);
        let h = hottest(v.reactor);
        assert(v.reactor[h].status != ModuleStatus::SlotEmpty);
        lemma_reactor_cards_same_slot(
            v.reactor,
            h,
            Module { status: ModuleStatus::SlotOverheated, ..v.reactor[h] },
        );
        assert(deck_cards(v.step_player().0) =~= deck_cards(v));
    }
}

/// The reactor reports done exactly when a power-up step would activate nothing,
/// and the attack is done exactly when a step yields no action.
pub proof fn lemma_done_checks_match_steps(v: DeckView)
    ensures
        v.is_reactor_done() == !v.step_reactor().1,
        v.is_player_done() == (v.step_player().1 is None),
{
}

/// The number of inactive slots, which powering up uses up.
pub open spec fn inactive_count(s: Seq<Module>) -> nat
    decreases s.len(),
{
    if s.len() == 0 {
        0
    } else {
        inactive_count(s.drop_last()) + if s.last().status == ModuleStatus::SlotInactive {
            1nat
        } else {
            0nat
        }
    }
}

proof fn lemma_inactive_count_update(s: Seq<Module>, i: int, m: Module)
    requires
        0 <= i < s.len(),
    ensures
        inactive_count(s.update(i, m)) + (if s[i].status == ModuleStatus::SlotInactive {
            1int
        } else {
            0int
        }) == inactive_count(s) + (if m.status == ModuleStatus::SlotInactive {
            1int
        } else {
            0int
        }),
    decreases s.len(),
{
    let u = s.update(i, m);
    if i == s.len() - 1 {
        assert(u.drop_last() =~= s.drop_last());
    } else {
        assert(u.drop_last() =~= s.drop_last().update(i, m));
        lemma_inactive_count_update(s.drop_last(), i, m);
    }
}

/// Powering up the reactor ends: each step that activates a slot uses up one
/// inactive slot, and a step that activates nothing leaves the reactor as it is.
/// Likewise each step of the attack that yields an action takes one entry off
/// the queue.
pub proof fn lemma_steps_make_progress(v: DeckView)
    ensures
        v.step_reactor().1 ==> inactive_count(v.step_reactor().0.reactor) + 1 == inactive_count(
            v.reactor,
        ),
        !v.step_reactor().1 ==> v.step_reactor().0.reactor == v.reactor,
        v.step_player().1 is Some ==> v.step_player().0.action_queue.len() + 1
            == v.action_queue.len(),
{
    match v.next_matching_module() {
        Some(i) => {
            match scan(v.reactor, ModuleQuery::TriggeredBy(v.last_action), 0) {
                Some(j) => lemma_scan(v.reactor, ModuleQuery::TriggeredBy(v.last_action), 0),
                None => lemma_scan(v.reactor, ModuleQuery::TriggeredBy(ModuleAction::Nothing), 0),
            }
            let m = v.reactor[i];
            let chain = if m.condition == ModuleAction::Nothing {
                1
            } else {
                sat_add(v.chain, 1)
            };
            lemma_inactive_count_update(
                v.reactor,
                i,
                Module { status: ModuleStatus::SlotActive, heat: sat_add(m.heat, chain), ..m },
            );
        },
        None => {},
    }
}

impl View for PlayerDeck {
    type V = DeckView;

    open spec fn view(&self) -> DeckView {
        DeckView {
            name: self.name@,
            max_health: self.max_health,
            heat_capacity: self.heat_capacity,
            hand_size: self.hand_size,
            weapons: self.weapons@,
            storage: self.storage@,
            hand: self.hand@,
            reactor: self.reactor@,
            hand_idx: self.hand_idx,
            just_used_storage: self.just_used_storage,
            flux: self.flux,
            chain: self.chain,
            action_queue: self.action_queue@,
            last_action: self.last_action,
            last_touched_idx: self.last_touched_idx,
        }
    }
}

/// A property of a module that the deck searches for.
pub enum ModuleQuery {
    /// A reactor slot that overheated.
    Overheated,
    /// An empty reactor slot.
    Empty,
    /// An inactive reactor slot whose condition is the given action.
    TriggeredBy(ModuleAction),
    /// A module with the given condition and effect.
    Matches(ModuleAction, ModuleAction),
}

pub open spec fn selects(q: ModuleQuery, m: Module) -> bool {
    match q {
        ModuleQuery::Overheated => m.status == ModuleStatus::SlotOverheated,
        ModuleQuery::Empty => m.status == ModuleStatus::SlotEmpty,
        ModuleQuery::TriggeredBy(a) => m.status == ModuleStatus::SlotInactive && m.condition == a,
        ModuleQuery::Matches(c, e) => m.condition == c && m.effect == e,
    }
}

/// The first index at or after `i` whose module the query selects.
pub open spec fn scan(s: Seq<Module>, q: ModuleQuery, i: int) -> Option<int>
    decreases s.len() - i,
{
    if i < 0 || i >= s.len() {
        None
    } else if selects(q, s[i]) {
        Some(i)
    } else {
        scan(s, q, i + 1)
    }
}

/// What `scan` finds: the first selected index, or that there is none.
pub proof fn lemma_scan(s: Seq<Module>, q: ModuleQuery, i: int)
    requires
        0 <= i,
    ensures
        match scan(s, q, i) {
            Some(j) => i <= j < s.len() && selects(q, s[j]) && forall|k: int|
                i <= k < j ==> !selects(q, #[trigger] s[k]),
            None => forall|k: int| i <= k < s.len() ==> !selects(q, #[trigger] s[k]),
        },
    decreases s.len() - i,
{
    if i < s.len() && !selects(q, s[i]) {
        lemma_scan(s, q, i + 1);
    }
}

/// Finds the first module of `s` that the query selects.
pub fn find_module(s: &Vec<Module>, q: ModuleQuery) -> (r: Option<usize>)
    ensures
        match r {
            Some(i) => scan(s@, q, 0) == Some(i as int),
            None => scan(s@, q, 0) is None,
        },
{
    let mut i: usize = 0;
    while i < s.len()
        invariant
            i <= s.len(),
            scan(s@, q, 0) == scan(s@, q, i as int),
        decreases s.len() - i,
    {
        let m = s[i];
        let hit = match q {
            ModuleQuery::Overheated => matches!(m.status, ModuleStatus::SlotOverheated),
            ModuleQuery::Empty => matches!(m.status, ModuleStatus::SlotEmpty),
            ModuleQuery::TriggeredBy(a) => matches!(m.status, ModuleStatus::SlotInactive)
                && m.condition == a,
            ModuleQuery::Matches(c, e) => m.condition == c && m.effect == e,
        };
        if hit {
            return Some(i);
        }
        i = i + 1;
    }
    None
}

pub open spec fn sat_add(a: u64, b: u64) -> u64 {
    if a + b > u64::MAX {
        u64::MAX
    } else {
        (a + b) as u64
    }
}

/// The first index of a module with the greatest heat.
pub open spec fn hottest(s: Seq<Module>) -> int
    decreases s.len(),
{
    if s.len() <= 1 {
        0
    } else {
        let j = hottest(s.drop_last());
        if s.last().heat > s[j].heat {
            s.len() - 1
        } else {
            j
        }
    }
}

pub proof fn lemma_hottest(s: Seq<Module>)
    requires
        s.len() > 0,
    ensures
        0 <= hottest(s) < s.len(),
        forall|k: int| 0 <= k < s.len() ==> #[trigger] s[k].heat <= s[hottest(s)].heat,
        forall|k: int| 0 <= k < hottest(s) ==> #[trigger] s[k].heat < s[hottest(s)].heat,
    decreases s.len(),
{
    if s.len() > 1 {
        let t = s.drop_last();
        lemma_hottest(t);
        let j = hottest(t);
        assert(t[j] == s[j]);
        assert forall|k: int| 0 <= k < s.len() implies #[trigger] s[k].heat <= s[hottest(s)].heat by {
            if k < s.len() - 1 {
                assert(t[k] == s[k]);
            }
        }
        assert forall|k: int| 0 <= k < hottest(s) implies #[trigger] s[k].heat < s[hottest(s)].heat by {
            assert(t[k] == s[k]);
        }
    }
}

/// The module put into storage when a reactor slot is emptied.
pub open spec fn returned(m: Module) -> Module {
    Module { status: ModuleStatus::FaceUp, heat: 0, ..m }
}

/// The index selected after moving `step` places, kept inside the hand.
pub open spec fn advanced_index(hand_idx: usize, step: isize, hand_len: nat) -> usize {
    let raised = hand_idx + step;
    let raised = if raised < 0 {
        0
    } else if raised > usize::MAX {
        usize::MAX as int
    } else {
        raised
    };
    let last = if hand_len == 0 {
        0
    } else {
        hand_len - 1
    };
    if raised < last {
        raised as usize
    } else {
        last as usize
    }
}

/// The selected index after one module left a hand of `hand_len` modules.
pub open spec fn index_after_removal(hand_idx: usize, hand_len: nat) -> usize {
    if hand_len <= 1 {
        0
    } else if hand_idx < hand_len - 2 {
        hand_idx
    } else {
        (hand_len - 2) as usize
    }
}


/// Reactor slots emptied in place: each keeps its module's faces and heat.
pub open spec fn emptied_slots(s: Seq<Module>) -> Seq<Module> {
    Seq::new(s.len(), |i: int| Module { status: ModuleStatus::SlotEmpty, ..s[i] })
}

/// The modules that emptying the reactor sends to storage, in slot order.
pub open spec fn returned_from(s: Seq<Module>) -> Seq<Module>
    decreases s.len(),
{
    if s.len() == 0 {
        Seq::empty()
    } else {
        let r = returned_from(s.drop_last());
        if s.last().status == ModuleStatus::SlotEmpty {
            r
        } else {
            r.push(returned(s.last()))
        }
    }
}

pub open spec fn min_nat(a: nat, b: nat) -> nat {
    if a < b {
        a
    } else {
        b
    }
}

impl DeckView {
    /// The deck with every reactor slot emptied into storage, the hand put back after it,
    /// and the chain state cleared.
    pub open spec fn cleared(self) -> DeckView {
        DeckView {
            reactor: emptied_slots(self.reactor),
            storage: self.storage + returned_from(self.reactor) + self.hand,
            hand: Seq::empty(),
            just_used_storage: false,
            flux: 0,
            chain: 0,
            action_queue: Seq::empty(),
            last_action: ModuleAction::Nothing,
            last_touched_idx: None,
            ..self
        }
    }

    /// The deck after each of its first `k` weapons has been drawn from storage,
    /// when storage holds a module with the weapon's condition and effect.
    pub open spec fn with_weapons_drawn(self, k: int) -> DeckView
        decreases k,
    {
        if k <= 0 {
            self
        } else {
            let u = self.with_weapons_drawn(k - 1);
            let w = self.weapons[k - 1];
            match scan(u.storage, ModuleQuery::Matches(w.condition, w.effect), 0) {
                Some(p) => u.draw_from_idx(p),
                None => u,
            }
        }
    }

    /// Where a reset stands before its random draws: reactor and hand cleared into
    /// storage, then the weapons drawn.
    pub open spec fn reset_start(self) -> DeckView {
        self.cleared().with_weapons_drawn(self.weapons.len() as int)
    }

    /// The number of modules in hand once setup is complete, starting from this deck.
    pub open spec fn setup_hand_len(self) -> nat {
        if self.hand.len() >= self.hand_size {
            self.hand.len()
        } else {
            min_nat(self.hand_size as nat, self.hand.len() + self.storage.len())
        }
    }
}

impl DeckView {
    /// The selected index lies in the hand, and queued reactor slots exist.
    pub open spec fn wf(self) -> bool {
        &&& (self.hand.len() == 0 ==> self.hand_idx == 0)
        &&& (self.hand.len() > 0 ==> self.hand_idx < self.hand.len())
        &&& forall|i: int|
            0 <= i < self.action_queue.len() ==> #[trigger] self.action_queue[i] < self.reactor.len()
    }

    /// A non-empty hand has its selected index inside it.
    pub open spec fn selection_in_hand(self) -> bool {
        self.hand.len() > 0 ==> self.hand_idx < self.hand.len()
    }

    /// When a module can be played, the selected index lies in the hand.
    pub open spec fn selection_playable(self) -> bool {
        self.hand.len() > 0 && self.reactor.len() > 0 && self.next_available_slot() is Some
            ==> self.hand_idx < self.hand.len()
    }

    /// The front of the action queue, if any, names a reactor slot.
    pub open spec fn front_in_reactor(self) -> bool {
        self.action_queue.len() > 0 ==> self.action_queue[0] < self.reactor.len()
    }

    pub open spec fn advance_selected(self, step: isize) -> DeckView {
        DeckView { hand_idx: advanced_index(self.hand_idx, step, self.hand.len()), ..self }
    }

    pub open spec fn draw_from_idx(self, idx: int) -> DeckView {
        DeckView {
            storage: self.storage.update(idx, self.storage.last()).drop_last(),
            hand: self.hand.push(self.storage[idx]),
            just_used_storage: true,
            ..self
        }
    }

    pub open spec fn discard_module(self, idx: int) -> DeckView {
        let slot = self.reactor[idx];
        if slot.status == ModuleStatus::SlotEmpty {
            self
        } else {
            DeckView {
                reactor: self.reactor.update(idx, Module { status: ModuleStatus::SlotEmpty, ..slot }),
                storage: self.storage.push(returned(slot)),
                just_used_storage: true,
                ..self
            }
        }
    }

    /// The slot a played module goes to: the first overheated slot, else the first empty one.
    pub open spec fn next_available_slot(self) -> Option<int> {
        match scan(self.reactor, ModuleQuery::Overheated, 0) {
            Some(i) => Some(i),
            None => scan(self.reactor, ModuleQuery::Empty, 0),
        }
    }

    /// The slot activated next: the first inactive slot triggered by the last action,
    /// else the first inactive slot that starts a chain.
    pub open spec fn next_matching_module(self) -> Option<int> {
        match scan(self.reactor, ModuleQuery::TriggeredBy(self.last_action), 0) {
            Some(i) => Some(i),
            None => scan(self.reactor, ModuleQuery::TriggeredBy(ModuleAction::Nothing), 0),
        }
    }

    /// Playing the selected module into the next available slot; false when there is
    /// no module in hand, no reactor slot, or no available slot.
    pub open spec fn play_selected(self) -> (DeckView, bool) {
        if self.hand.len() == 0 || self.reactor.len() == 0 {
            (self, false)
        } else {
            match self.next_available_slot() {
                None => (self, false),
                Some(slot) => {
                    let selected = self.hand[self.hand_idx as int];
                    let removed = DeckView {
                        hand: self.hand.remove(self.hand_idx as int),
                        hand_idx: index_after_removal(self.hand_idx, self.hand.len()),
                        ..self
                    };
                    let emptied = removed.discard_module(slot);
                    (
                        DeckView {
                            reactor: emptied.reactor.update(
                                slot,
                                Module { status: ModuleStatus::SlotInactive, ..selected },
                            ),
                            last_touched_idx: Some(slot as usize),
                            ..emptied
                        },
                        true,
                    )
                },
            }
        }
    }

    /// Discarding the selected module into storage at `storage_idx`; false when the hand is empty.
    pub open spec fn discard_selected_at(self, storage_idx: int) -> (DeckView, bool) {
        if self.hand.len() == 0 {
            (self, false)
        } else {
            (
                DeckView {
                    hand: self.hand.remove(self.hand_idx as int),
                    hand_idx: index_after_removal(self.hand_idx, self.hand.len()),
                    storage: self.storage.insert(storage_idx, self.hand[self.hand_idx as int]),
                    just_used_storage: true,
                    ..self
                },
                true,
            )
        }
    }

    pub open spec fn is_reactor_done(self) -> bool {
        self.next_matching_module() is None
    }

    pub open spec fn is_player_done(self) -> bool {
        self.action_queue.len() == 0
    }

    pub open spec fn is_setup_done(self) -> bool {
        self.storage.len() == 0 || self.hand.len() >= self.hand_size
    }

    /// One step powering up the reactor: activate the next matching module, extend the
    /// chain, heat the module, and queue its effect. False when the reactor is done.
    pub open spec fn step_reactor(self) -> (DeckView, bool) {
        match self.next_matching_module() {
            Some(i) => {
                let m = self.reactor[i];
                let chain = if m.condition == ModuleAction::Nothing {
                    1
                } else {
                    sat_add(self.chain, 1)
                };
                (
                    DeckView {
                        reactor: self.reactor.update(
                            i,
                            Module { status: ModuleStatus::SlotActive, heat: sat_add(m.heat, chain), ..m },
                        ),
                        chain,
                        flux: if self.flux < chain {
                            chain
                        } else {
                            self.flux
                        },
                        action_queue: self.action_queue.push(i as usize),
                        last_action: m.effect,
                        last_touched_idx: Some(i as usize),
                        ..self
                    },
                    true,
                )
            },
            None => (
                DeckView { last_action: ModuleAction::Nothing, last_touched_idx: None, ..self },
                false,
            ),
        }
    }

    /// One step of the player's attack: the front of the queue cools down (or overheats)
    /// and its effect is returned. With an empty queue the chain and flux reset, and if no
    /// slot is available the hottest slot is marked overheated.
    pub open spec fn step_player(self) -> (DeckView, Option<ModuleAction>) {
        if self.action_queue.len() > 0 {
            let idx = self.action_queue[0];
            let m = self.reactor[idx as int];
            let status = if m.heat > self.heat_capacity {
                ModuleStatus::SlotOverheated
            } else {
                ModuleStatus::SlotInactive
            };
            (
                DeckView {
                    action_queue: self.action_queue.drop_first(),
                    last_touched_idx: Some(idx),
                    reactor: self.reactor.update(idx as int, Module { status, ..m }),
                    ..self
                },
                Some(m.effect),
            )
        } else {
            let reset = DeckView { last_touched_idx: None, chain: 0, flux: 0, ..self };
            if self.next_available_slot() is None && self.reactor.len() > 0 {
                let h = hottest(self.reactor);
                (
                    DeckView {
                        reactor: self.reactor.update(
                            h,
                            Module { status: ModuleStatus::SlotOverheated, ..self.reactor[h] },
                        ),
                        ..reset
                    },
                    None,
                )
            } else {
                (reset, None)
            }
        }
    }
}

impl PlayerDeck {
    /// Moves the selection by `step`, staying inside the hand.
    pub fn advance_selected(&mut self, step: isize)
        ensures
            final(self)@ == old(self)@.advance_selected(step),
    {
        let raised: usize = if step >= 0 {
            self.hand_idx.saturating_add(step as usize)
        } else {
            let down: usize = ((0 - (step + 1)) as usize) + 1;
            self.hand_idx.saturating_sub(down)
        };
        let last: usize = self.hand.len().saturating_sub(1);
        self.hand_idx = if raised < last {
            raised
        } else {
            last
        };
    }

    /// Draws the module at `idx` of storage into the hand; the last stored module takes its place.
    pub fn draw_from_idx(&mut self, idx: usize)
        requires
            idx < old(self).storage.len(),
        ensures
            final(self)@ == old(self)@.draw_from_idx(idx as int),
    {
        let drawn = self.storage.swap_remove(idx);
        self.hand.push(drawn);
        self.just_used_storage = true;
    }

    /// Returns the module in reactor slot `idx` to storage, leaving the slot empty.
    pub fn discard_module(&mut self, idx: usize)
        requires
            idx < old(self).reactor.len(),
        ensures
            final(self)@ == old(self)@.discard_module(idx as int),
    {
        let slot = self.reactor[idx];
        if matches!(slot.status, ModuleStatus::SlotEmpty) {
            return;
        }
        self.reactor.set(idx, Module { status: ModuleStatus::SlotEmpty, ..slot });
        self.storage.push(Module { status: ModuleStatus::FaceUp, heat: 0, ..slot });
        self.just_used_storage = true;
    }

    fn next_available_slot(&self) -> (r: Option<usize>)
        ensures
            match r {
                Some(i) => self@.next_available_slot() == Some(i as int),
                None => self@.next_available_slot() is None,
            },
    {
        match find_module(&self.reactor, ModuleQuery::Overheated) {
            Some(i) => Some(i),
            None => find_module(&self.reactor, ModuleQuery::Empty),
        }
    }

    fn next_matching_module(&self) -> (r: Option<usize>)
        ensures
            match r {
                Some(i) => self@.next_matching_module() == Some(i as int),
                None => self@.next_matching_module() is None,
            },
    {
        match find_module(&self.reactor, ModuleQuery::TriggeredBy(self.last_action)) {
            Some(i) => Some(i),
            None => find_module(&self.reactor, ModuleQuery::TriggeredBy(ModuleAction::Nothing)),
        }
    }

    /// Plays the selected module from the hand into the next available reactor slot,
    /// returning false if that is not possible.
    pub fn play_selected(&mut self) -> (played: bool)
        requires
            old(self)@.selection_playable(),
        ensures
            (final(self)@, played) == old(self)@.play_selected(),
            old(self)@.wf() ==> final(self)@.wf(),
    {
        if self.hand.len() == 0 || self.reactor.len() == 0 {
            return false;
        }
        let slot_idx = match self.next_available_slot() {
            Some(i) => i,
            None => return false,
        };
        proof {
            lemma_scan(self.reactor@, ModuleQuery::Overheated, 0);
            lemma_scan(self.reactor@, ModuleQuery::Empty, 0);
        }
        let idx = self.hand_idx;
        let selected = self.hand.remove(idx);
        let last: usize = self.hand.len().saturating_sub(1);
        self.hand_idx = if self.hand_idx < last {
            self.hand_idx
        } else {
            last
        };
        self.discard_module(slot_idx);
        self.reactor.set(slot_idx, Module { status: ModuleStatus::SlotInactive, ..selected });
        self.last_touched_idx = Some(slot_idx);
        true
    }

    /// Discards the selected module into storage at `storage_idx`, returning false if the
    /// hand is empty.
    pub fn discard_selected_at(&mut self, storage_idx: usize) -> (discarded: bool)
        requires
            old(self)@.selection_in_hand(),
            storage_idx <= old(self).storage.len(),
        ensures
            (final(self)@, discarded) == old(self)@.discard_selected_at(storage_idx as int),
            old(self)@.wf() ==> final(self)@.wf(),
    {
        if self.hand.len() == 0 {
            return false;
        }
        let idx = self.hand_idx;
        let selected = self.hand.remove(idx);
        let last: usize = self.hand.len().saturating_sub(1);
        self.hand_idx = if self.hand_idx < last {
            self.hand_idx
        } else {
            last
        };
        self.storage.insert(storage_idx, selected);
        self.just_used_storage = true;
        true
    }

    /// Discards the selected module into a random place in the upper half of storage,
    /// returning false if the hand is empty.
    pub fn discard_selected(&mut self, rng: &mut ThreadRng) -> (discarded: bool)
        requires
            old(self)@.selection_in_hand(),
        ensures
            discarded == (old(self).hand.len() > 0),
            !discarded ==> final(self)@ == old(self)@,
            discarded ==> exists|k: int|
                0 <= k <= old(self).storage.len() / 2 && (final(self)@, true)
                    == #[trigger] old(self)@.discard_selected_at(k),
            old(self)@.wf() ==> final(self)@.wf(),
    {
        if self.hand.len() == 0 {
            return false;
        }
        let storage_idx = random_index(rng, self.storage.len() / 2 + 1);
        self.discard_selected_at(storage_idx)
    }

    pub fn is_reactor_done(&self) -> (done: bool)
        ensures
            done == self@.is_reactor_done(),
    {
        self.next_matching_module().is_none()
    }

    /// Activates the next matching reactor module, returning false if the reactor is done.
    pub fn step_reactor(&mut self) -> (stepped: bool)
        ensures
            (final(self)@, stepped) == old(self)@.step_reactor(),
            old(self)@.wf() ==> final(self)@.wf(),
    {
        match self.next_matching_module() {
            Some(idx) => {
                proof {
                    lemma_scan(self.reactor@, ModuleQuery::TriggeredBy(self.last_action), 0);
                    lemma_scan(self.reactor@, ModuleQuery::TriggeredBy(ModuleAction::Nothing), 0);
                }
                assert(idx < self.reactor.len());
                let slot = self.reactor[idx];
                if matches!(slot.condition, ModuleAction::Nothing) {
                    self.chain = 0;
                }
                self.chain = self.chain.saturating_add(1);
                let heat = slot.heat.saturating_add(self.chain);
                if self.flux < self.chain {
                    self.flux = self.chain;
                }
                self.action_queue.push_back(idx);
                self.last_action = slot.effect;
                self.last_touched_idx = Some(idx);
                self.reactor.set(idx, Module { status: ModuleStatus::SlotActive, heat, ..slot });
                proof {
                    if old(self)@.wf() {
                        assert forall|i: int| 0 <= i < self@.action_queue.len() implies
                            #[trigger] self@.action_queue[i] < self@.reactor.len() by {
                            if i < old(self).action_queue@.len() {
                                assert(self.action_queue@[i] == old(self).action_queue@[i]);
                                assert(old(self)@.action_queue[i] < old(self)@.reactor.len());
                            } else {
                                assert(self.action_queue@[i] == idx);
                            }
                        }
                    }
                }
                true
            },
            None => {
                self.last_action = ModuleAction::Nothing;
                self.last_touched_idx = None;
                proof {
                    if old(self)@.wf() {
                        assert forall|i: int| 0 <= i < self@.action_queue.len() implies
                            #[trigger] self@.action_queue[i] < self@.reactor.len() by {
                            assert(old(self)@.action_queue[i] < old(self)@.reactor.len());
                        }
                    }
                }
                false
            },
        }
    }

    pub fn is_player_done(&self) -> (done: bool)
        ensures
            done == self@.is_player_done(),
    {
        self.action_queue.len() == 0
    }

    fn hottest_slot(&self) -> (h: usize)
        requires
            self.reactor.len() > 0,
        ensures
            h as int == hottest(self.reactor@),
    {
        let mut best: usize = 0;
        let mut i: usize = 1;
        assert(self.reactor@.take(1).len() == 1);
        while i < self.reactor.len()
            invariant
                1 <= i <= self.reactor.len(),
                best < i,
                best as int == hottest(self.reactor@.take(i as int)),
            decreases self.reactor.len() - i,
        {
            proof {
                let t = self.reactor@.take(i as int + 1);
                assert(t.drop_last() =~= self.reactor@.take(i as int));
                assert(t[best as int] == self.reactor@[best as int]);
                assert(t.last() == self.reactor@[i as int]);
            }
            if self.reactor[i].heat > self.reactor[best].heat {
                best = i;
            }
            i = i + 1;
        }
        assert(self.reactor@.take(i as int) =~= self.reactor@);
        best
    }

    /// Takes one step through the player's attack, returning the action or `None` if done.
    pub fn step_player(&mut self) -> (action: Option<ModuleAction>)
        requires
            old(self)@.front_in_reactor(),
        ensures
            (final(self)@, action) == old(self)@.step_player(),
            old(self)@.wf() ==> final(self)@.wf(),
    {
        let popped = self.action_queue.pop_front();
        self.last_touched_idx = popped;
        match popped {
            Some(idx) => {
                proof {
                    assert(old(self).action_queue@[0] < self.reactor@.len());
                }
                let slot = self.reactor[idx];
                let status = if slot.heat > self.heat_capacity {
                    ModuleStatus::SlotOverheated
                } else {
                    ModuleStatus::SlotInactive
                };
                self.reactor.set(idx, Module { status, ..slot });
                proof {
                    if old(self)@.wf() {
                        assert forall|i: int| 0 <= i < self@.action_queue.len() implies
                            #[trigger] self@.action_queue[i] < self@.reactor.len() by {
                            assert(self.action_queue@[i] == old(self).action_queue@[i + 1]);
                            assert(old(self)@.action_queue[i + 1] < old(self)@.reactor.len());
                        }
                    }
                }
                Some(slot.effect)
            },
            None => {
                self.chain = 0;
                self.flux = 0;
                if self.next_available_slot().is_none() && self.reactor.len() > 0 {
                    let h = self.hottest_slot();
                    proof {
                        lemma_hottest(self.reactor@);
                    }
                    let slot = self.reactor[h];
                    self.reactor.set(h, Module { status: ModuleStatus::SlotOverheated, ..slot });
                }
                None
            },
        }
    }


    fn clear_for_reset(&mut self)
        ensures
            final(self)@ == old(self)@.cleared(),
    {
        let n = self.reactor.len();
        let mut idx: usize = 0;
        while idx < n
            invariant
                n == self.reactor.len(),
                n == old(self).reactor.len(),
                idx <= n,
                self@ == (DeckView {
                    reactor: emptied_slots(old(self)@.reactor.take(idx as int)) + old(self)@.reactor.skip(
                        idx as int,
                    ),
                    storage: old(self)@.storage + returned_from(old(self)@.reactor.take(idx as int)),
                    just_used_storage: self.just_used_storage,
                    ..old(self)@
                }),
            decreases n - idx,
        {
            let ghost before = self@;
            proof {
                let r = old(self)@.reactor;
                assert(r.take(idx as int + 1).drop_last() =~= r.take(idx as int));
                assert(before.reactor[idx as int] == r[idx as int]);
            }
            self.discard_module(idx);
            proof {
                let r = old(self)@.reactor;
                assert(self@.reactor =~= emptied_slots(r.take(idx as int + 1)) + r.skip(idx as int + 1));
                assert(self@.storage =~= old(self)@.storage + returned_from(r.take(idx as int + 1)));
            }
            idx = idx + 1;
        }
        proof {
            assert(old(self)@.reactor.take(n as int) =~= old(self)@.reactor);
            assert(old(self)@.reactor.skip(n as int) =~= Seq::<Module>::empty());
            assert(self@.reactor =~= emptied_slots(old(self)@.reactor));
        }
        self.storage.append(&mut self.hand);
        self.just_used_storage = false;
        self.flux = 0;
        self.chain = 0;
        self.action_queue.clear();
        self.last_action = ModuleAction::Nothing;
        self.last_touched_idx = None;
    }

    fn draw_weapons(&mut self)
        ensures
            final(self)@ == old(self)@.with_weapons_drawn(old(self).weapons.len() as int),
    {
        let n = self.weapons.len();
        let mut i: usize = 0;
        while i < n
            invariant
                n == self.weapons.len(),
                n == old(self).weapons.len(),
                i <= n,
                self@ == old(self)@.with_weapons_drawn(i as int),
                self@.weapons == old(self)@.weapons,
            decreases n - i,
        {
            let w = self.weapons[i];
            match find_module(&self.storage, ModuleQuery::Matches(w.condition, w.effect)) {
                Some(p) => {
                    proof {
                        lemma_scan(self.storage@, ModuleQuery::Matches(w.condition, w.effect), 0);
                    }
                    self.draw_from_idx(p);
                },
                None => {},
            }
            i = i + 1;
        }
    }

    /// Resets the deck for a new level: every module goes back to storage, the weapons
    /// are drawn, and random modules are drawn until the hand is full or storage is empty.
    /// The middle of the hand is selected.
    pub fn reset(&mut self, rng: &mut ThreadRng)
        ensures
            ({
                let s = old(self)@.reset_start();
                let r = final(self)@;
                &&& r.reactor == s.reactor
                &&& r.hand.subrange(0, s.hand.len() as int) == s.hand
                &&& r.hand.len() == s.setup_hand_len()
                &&& r.hand.len() + r.storage.len() == s.hand.len() + s.storage.len()
                &&& cards(r.storage).add(cards(r.hand)) == cards(s.storage).add(cards(s.hand))
                &&& r.storage.to_multiset().add(r.hand.to_multiset()) == s.storage.to_multiset().add(
                    s.hand.to_multiset(),
                )
                &&& r.storage.to_multiset().add(r.hand.to_multiset()) == (old(self)@.storage
                    + returned_from(old(self)@.reactor) + old(self)@.hand).to_multiset()
                &&& r.hand_idx == r.hand.len() / 2
                &&& r.just_used_storage == (r.hand.len() > 0)
                &&& r.name == s.name
                &&& r.max_health == s.max_health
                &&& r.heat_capacity == s.heat_capacity
                &&& r.hand_size == s.hand_size
                &&& r.weapons == s.weapons
                &&& r.flux == 0 && r.chain == 0
                &&& r.action_queue.len() == 0
                &&& r.last_action == ModuleAction::Nothing
                &&& r.last_touched_idx is None
            }),
            deck_cards(final(self)@) == deck_cards(old(self)@),
            final(self)@.wf(),
    {
        self.clear_for_reset();
        proof {
            lemma_cleared_conserves_cards(old(self)@);
        }
        let ghost c = self@;
        self.draw_weapons();
        proof {
            lemma_weapons_drawn(c, c.weapons.len() as int);
        }
        let ghost s = self@;
        loop
            invariant
                s == old(self)@.reset_start(),
                self@.reactor == s.reactor,
                self@.hand.len() >= s.hand.len(),
                self@.hand.subrange(0, s.hand.len() as int) == s.hand,
                self@.hand.len() + self@.storage.len() == s.hand.len() + s.storage.len(),
                s.hand.len() >= s.hand_size ==> self@.hand.len() == s.hand.len(),
                s.hand.len() < s.hand_size ==> self@.hand.len() <= s.hand_size,
                cards(self@.storage).add(cards(self@.hand)) == cards(s.storage).add(cards(s.hand)),
                self@.storage.to_multiset().add(self@.hand.to_multiset()) == s.storage.to_multiset().add(
                    s.hand.to_multiset(),
                ),
                self@.just_used_storage == (self@.hand.len() > 0),
                self@ == (DeckView {
                    storage: self@.storage,
                    hand: self@.hand,
                    just_used_storage: self@.just_used_storage,
                    ..s
                }),
            ensures
                self@.is_setup_done(),
                self@.reactor == s.reactor,
                self@.hand.len() >= s.hand.len(),
                self@.hand.subrange(0, s.hand.len() as int) == s.hand,
                self@.hand.len() + self@.storage.len() == s.hand.len() + s.storage.len(),
                s.hand.len() >= s.hand_size ==> self@.hand.len() == s.hand.len(),
                s.hand.len() < s.hand_size ==> self@.hand.len() <= s.hand_size,
                cards(self@.storage).add(cards(self@.hand)) == cards(s.storage).add(cards(s.hand)),
                self@.storage.to_multiset().add(self@.hand.to_multiset()) == s.storage.to_multiset().add(
                    s.hand.to_multiset(),
                ),
                self@.just_used_storage == (self@.hand.len() > 0),
                self@ == (DeckView {
                    storage: self@.storage,
                    hand: self@.hand,
                    just_used_storage: self@.just_used_storage,
                    ..s
                }),
            decreases self.storage.len(),
        {
            let ghost before = self@;
            if !self.step_setup(rng) {
                break;
            }
            proof {
                let i = choose|i: int|
                    0 <= i < before.storage.len() && self@ == #[trigger] before.draw_from_idx(i);
                lemma_draw_conserves_cards(before, i);
                lemma_draw_keeps_modules(before, i);
                assert(self@.hand.subrange(0, s.hand.len() as int) =~= before.hand.subrange(
                    0,
                    s.hand.len() as int,
                ));
            }
        }
        self.hand_idx = self.hand.len() / 2;
        proof {
            lemma_reset_start_conserves_cards(old(self)@);
            lemma_reset_start_modules(old(self)@);
        }
    }

    pub fn is_setup_done(&self) -> (done: bool)
        ensures
            done == self@.is_setup_done(),
    {
        self.storage.len() == 0 || self.hand.len() >= self.hand_size
    }

    /// Draws a random module from storage into the hand; nothing happens when storage is empty.
    pub fn draw_random(&mut self, rng: &mut ThreadRng)
        ensures
            old(self).storage.len() == 0 ==> final(self)@ == old(self)@,
            old(self).storage.len() > 0 ==> exists|i: int|
                0 <= i < old(self).storage.len() && final(self)@
                    == #[trigger] old(self)@.draw_from_idx(i),
    {
        if self.storage.len() == 0 {
            return;
        }
        let idx = random_index(rng, self.storage.len());
        self.draw_from_idx(idx);
    }

    /// Draws a random module while storage has modules and the hand is not full;
    /// returns false (changing nothing) when setup was already complete.
    pub fn step_setup(&mut self, rng: &mut ThreadRng) -> (stepped: bool)
        ensures
            stepped == !old(self)@.is_setup_done(),
            !stepped ==> final(self)@ == old(self)@,
            stepped ==> exists|i: int|
                0 <= i < old(self).storage.len() && final(self)@
                    == #[trigger] old(self)@.draw_from_idx(i),
    {
        if self.storage.len() > 0 && self.hand.len() < self.hand_size {
            self.draw_random(rng);
            true
        } else {
            false
        }
    }
}

} // verus!

verus! {

/// The enemy's actions for a round: it performs them in order, more of them in later rounds.
pub struct EnemyDeck {
    pub flux: u64,
    pub actions: Vec<ModuleAction>,
    pub action_idx: usize,
    /// The maximum number of actions to be performed on the first round.
    pub action_limit: usize,
}

/// The mathematical value of an [`EnemyDeck`].
#[verifier::ext_equal]
pub struct EnemyDeckView {
    pub flux: u64,
    pub actions: Seq<ModuleAction>,
    pub action_idx: usize,
    pub action_limit: usize,
}

impl View for EnemyDeck {
    type V = EnemyDeckView;

    open spec fn view(&self) -> EnemyDeckView {
        EnemyDeckView {
            flux: self.flux,
            actions: self.actions@,
            action_idx: self.action_idx,
            action_limit: self.action_limit,
        }
    }
}

impl EnemyDeckView {
    /// How many actions the enemy performs in the given round.
    pub open spec fn round_len(self, round: usize) -> nat {
        let limit = if self.action_limit + round > usize::MAX {
            usize::MAX as nat
        } else {
            (self.action_limit + round) as nat
        };
        if self.actions.len() < limit {
            self.actions.len()
        } else {
            limit
        }
    }

    pub open spec fn is_done(self, round: usize) -> bool {
        self.action_idx >= self.round_len(round)
    }

    /// One step: the next action, or `None` and a rewind when the round's actions are done.
    pub open spec fn step(self, round: usize) -> (EnemyDeckView, Option<ModuleAction>) {
        if self.is_done(round) {
            (EnemyDeckView { action_idx: 0, flux: 0, ..self }, None)
        } else {
            (
                EnemyDeckView {
                    action_idx: (self.action_idx + 1) as usize,
                    flux: sat_add(self.flux, 1),
                    ..self
                },
                Some(self.actions[self.action_idx as int]),
            )
        }
    }

    /// The state and the outputs after `n` steps in the same round.
    pub open spec fn run(self, round: usize, n: nat) -> (EnemyDeckView, Seq<Option<ModuleAction>>)
        decreases n,
    {
        if n == 0 {
            (self, Seq::empty())
        } else {
            let (u, out) = self.run(round, (n - 1) as nat);
            let (w, a) = u.step(round);
            (w, out.push(a))
        }
    }
}

impl EnemyDeck {
    /// A deck with no actions and one action allowed in the first round.
    pub fn new() -> (d: Self)
        ensures
            d@ == (EnemyDeckView { flux: 0, actions: Seq::empty(), action_idx: 0, action_limit: 1 }),
    {
        Self { flux: 0, actions: Vec::new(), action_idx: 0, action_limit: 1 }
    }

    pub fn reset(&mut self)
        ensures
            final(self)@ == (EnemyDeckView { flux: 0, actions: Seq::empty(), action_idx: 0, action_limit: 1 }),
    {
        *self = Self::new();
    }

    /// Determines whether the deck is done yielding actions in this round.
    pub fn is_done(&self, round: usize) -> (done: bool)
        ensures
            done == self@.is_done(round),
    {
        let limit = self.action_limit.saturating_add(round);
        let n = if self.actions.len() < limit {
            self.actions.len()
        } else {
            limit
        };
        self.action_idx >= n
    }

    /// Simulates one step and gets the next action.
    pub fn step(&mut self, round: usize) -> (action: Option<ModuleAction>)
        ensures
            (final(self)@, action) == old(self)@.step(round),
    {
        if self.is_done(round) {
            self.action_idx = 0;
            self.flux = 0;
            None
        } else {
            self.action_idx = self.action_idx + 1;
            self.flux = self.flux.saturating_add(1);
            Some(self.actions[self.action_idx - 1])
        }
    }
}

impl Default for EnemyDeck {
    fn default() -> (d: Self)
        ensures
            d@ == (EnemyDeckView { flux: 0, actions: Seq::empty(), action_idx: 0, action_limit: 1 }),
    {
        Self::new()
    }
}

/// The flux after `n` steps that each add one, stopping at the largest `u64`.
pub open spec fn flux_after(flux: u64, n: nat) -> u64 {
    if flux + n > u64::MAX {
        u64::MAX
    } else {
        (flux + n) as u64
    }
}

/// From the start of a round, the enemy yields its first actions in order, as many
/// as the round allows, its flux growing by one with each; then it yields nothing
/// and rewinds, flux back to zero, for the next round.
pub proof fn lemma_enemy_round(v: EnemyDeckView, round: usize)
    requires
        v.action_idx == 0,
    ensures
        ({
            let k = v.round_len(round);
            let (w, out) = v.run(round, k + 1);
            &&& out == Seq::new(k, |i: int| Some(v.actions[i])).push(None)
            &&& w == (EnemyDeckView { action_idx: 0, flux: 0, ..v })
        }),
        forall|j: nat|
            j <= v.round_len(round) ==> #[trigger] v.run(round, j).0.flux == flux_after(v.flux, j)
                && v.run(round, j).0.action_idx == j,
{
    assert forall|j: nat| j <= v.round_len(round) implies #[trigger] v.run(round, j).0.flux
        == flux_after(v.flux, j) && v.run(round, j).0.action_idx == j by {
        lemma_enemy_run_prefix(v, round, j);
    }
    let k = v.round_len(round);
    lemma_enemy_run_prefix(v, round, k);
    let (u, out) = v.run(round, k);
    assert(u.is_done(round));
    assert(v.run(round, k + 1).1 =~= Seq::new(k, |i: int| Some(v.actions[i])).push(None));
}

/// The enemy performs `action_limit + round` actions in a round (up to the
/// largest `usize`) when it has that many, and all of them otherwise: from the
/// start of a round, each of that many steps yields the next action in order,
/// and the step after them yields none.
pub proof fn lemma_enemy_round_len(v: EnemyDeckView, round: usize)
    ensures
        v.action_limit + round <= usize::MAX && v.action_limit + round <= v.actions.len()
            ==> v.round_len(round) == v.action_limit + round,
        v.action_limit + round > usize::MAX && usize::MAX <= v.actions.len() ==> v.round_len(round)
            == usize::MAX,
        v.actions.len() <= v.action_limit + round && v.actions.len() <= usize::MAX ==> v.round_len(
            round,
        ) == v.actions.len(),
        v.action_idx == 0 ==> forall|j: nat|
            j < v.round_len(round) ==> #[trigger] v.run(round, j).0.step(round).1 == Some(
                v.actions[j as int],
            ),
        v.action_idx == 0 ==> v.run(round, v.round_len(round)).0.step(round).1 is None,
{
    if v.action_idx == 0 {
        assert forall|j: nat| j < v.round_len(round) implies #[trigger] v.run(round, j).0.step(
            round,
        ).1 == Some(v.actions[j as int]) by {
            lemma_enemy_run_prefix(v, round, j);
        }
        lemma_enemy_run_prefix(v, round, v.round_len(round));
    }
}

proof fn lemma_enemy_run_prefix(v: EnemyDeckView, round: usize, n: nat)
    requires
        v.action_idx == 0,
        n <= v.round_len(round),
    ensures
        v.run(round, n).0.action_idx == n,
        v.run(round, n).0.flux == flux_after(v.flux, n),
        v.run(round, n).0.actions == v.actions,
        v.run(round, n).0.action_limit == v.action_limit,
        v.run(round, n).1 == Seq::new(n, |i: int| Some(v.actions[i])),
    decreases n,
{
    if n > 0 {
        lemma_enemy_run_prefix(v, round, (n - 1) as nat);
        assert(v.run(round, n).1 =~= Seq::new(n, |i: int| Some(v.actions[i])));
    } else {
        assert(v.run(round, n).1 =~= Seq::new(n, |i: int| Some(v.actions[i])));
    }
}

/// The deck is done exactly when a step yields no action.
pub proof fn lemma_enemy_done_matches_step(v: EnemyDeckView, round: usize)
    ensures
        v.is_done(round) == (v.step(round).1 is None),
{
}

} // verus!

verus! {

impl PlayerDeck {
    /// An empty deck with no modules, no hand and no reactor.
    pub fn new() -> (d: Self)
        ensures
            d@ == (DeckView {
                name: Seq::empty(),
                max_health: 0,
                heat_capacity: 0,
                hand_size: 0,
                weapons: Seq::empty(),
                storage: Seq::empty(),
                hand: Seq::empty(),
                reactor: Seq::empty(),
                hand_idx: 0,
                just_used_storage: false,
                flux: 0,
                chain: 0,
                action_queue: Seq::empty(),
                last_action: ModuleAction::Nothing,
                last_touched_idx: None,
            }),
            d@.wf(),
    {
        Self {
            name: String::new(),
            max_health: 0,
            heat_capacity: 0,
            hand_size: 0,
            weapons: Vec::new(),
            storage: Vec::new(),
            hand: Vec::new(),
            reactor: Vec::new(),
            hand_idx: 0,
            just_used_storage: false,
            flux: 0,
            chain: 0,
            action_queue: VecDeque::new(),
            last_action: ModuleAction::Nothing,
            last_touched_idx: None,
        }
    }

    /// A copy of the deck with the same value.
    pub fn duplicate(&self) -> (d: Self)
        ensures
            d@ == self@,
    {
        Self {
            name: self.name.clone(),
            max_health: self.max_health,
            heat_capacity: self.heat_capacity,
            hand_size: self.hand_size,
            weapons: copy_modules(&self.weapons),
            storage: copy_modules(&self.storage),
            hand: copy_modules(&self.hand),
            reactor: copy_modules(&self.reactor),
            hand_idx: self.hand_idx,
            just_used_storage: self.just_used_storage,
            flux: self.flux,
            chain: self.chain,
            action_queue: copy_indices(&self.action_queue),
            last_action: self.last_action,
            last_touched_idx: self.last_touched_idx,
        }
    }
}

impl Default for PlayerDeck {
    fn default() -> (d: Self)
        ensures
            d@ == (DeckView {
                name: Seq::empty(),
                max_health: 0,
                heat_capacity: 0,
                hand_size: 0,
                weapons: Seq::empty(),
                storage: Seq::empty(),
                hand: Seq::empty(),
                reactor: Seq::empty(),
                hand_idx: 0,
                just_used_storage: false,
                flux: 0,
                chain: 0,
                action_queue: Seq::empty(),
                last_action: ModuleAction::Nothing,
                last_touched_idx: None,
            }),
    {
        Self::new()
    }
}

fn copy_modules(s: &Vec<Module>) -> (r: Vec<Module>)
    ensures
        r@ == s@,
{
    let mut r: Vec<Module> = Vec::new();
    let mut i: usize = 0;
    while i < s.len()
        invariant
            i <= s.len(),
            r@ == s@.take(i as int),
        decreases s.len() - i,
    {
        r.push(s[i]);
        i = i + 1;
        assert(r@ =~= s@.take(i as int));
    }
    assert(s@.take(i as int) =~= s@);
    r
}

fn copy_indices(q: &VecDeque<usize>) -> (r: VecDeque<usize>)
    ensures
        r@ == q@,
{
    let mut r: VecDeque<usize> = VecDeque::new();
    let mut i: usize = 0;
    while i < q.len()
        invariant
            i <= q@.len(),
            r@ == q@.take(i as int),
        decreases q@.len() - i,
    {
        r.push_back(q[i]);
        i = i + 1;
        assert(r@ =~= q@.take(i as int));
    }
    assert(q@.take(i as int) =~= q@);
    r
}

impl EnemyDeck {
    /// A copy of the deck with the same value.
    pub fn duplicate(&self) -> (d: Self)
        ensures
            d@ == self@,
    {
        let mut actions: Vec<ModuleAction> = Vec::new();
        let mut i: usize = 0;
        while i < self.actions.len()
            invariant
                i <= self.actions.len(),
                actions@ == self.actions@.take(i as int),
            decreases self.actions.len() - i,
        {
            actions.push(self.actions[i]);
            i = i + 1;
            assert(actions@ =~= self.actions@.take(i as int));
        }
        assert(self.actions@.take(i as int) =~= self.actions@);
        Self {
            flux: self.flux,
            actions,
            action_idx: self.action_idx,
            action_limit: self.action_limit,
        }
    }
}

/// The decks the player can start with.
pub struct DeckConfig {
    pub player_decks: Vec<PlayerDeck>,
}

} // verus!
