//! What each listing answers: which rows it selects, how it joins them with
//! the rows they refer to, and in which order it lists them.

use vstd::prelude::*;
use crate::keys::{holds_key, key_pos};
use crate::like::sql_like;
use crate::model::{
    ArtistView, EventRecordView, EventSearchView, EventView, OrderRecordView, OrderView,
    TicketRecordView, TicketView, UserRecordView, UserView,
};
use crate::sort::{
    is_index_perm, law_sorted_int_order_unique, law_sorted_text_order_unique, ordered_text,
    sorted_int_order, sorted_text_order,
};
use crate::state::HubView;
use crate::text::{fold_text, text_le};
use crate::time::recency_key;

verus! {

/// The positions below `n` that `keep` selects, in ascending order.
pub open spec fn select_positions(n: int, keep: spec_fn(int) -> bool) -> Seq<usize>
    decreases n,
{
    if n <= 0 {
        Seq::empty()
    } else if keep(n - 1) {
        select_positions(n - 1, keep).push((n - 1) as usize)
    } else {
        select_positions(n - 1, keep)
    }
}

/// The text keys of the selected positions.
pub open spec fn selected_text_keys(sel: Seq<usize>, key: spec_fn(int) -> Seq<char>) -> Seq<Seq<char>> {
    Seq::new(sel.len(), |k: int| key(sel[k] as int))
}

/// The number keys of the selected positions.
pub open spec fn selected_int_keys(sel: Seq<usize>, key: spec_fn(int) -> i64) -> Seq<i64> {
    Seq::new(sel.len(), |k: int| key(sel[k] as int))
}

/// `out` lists `item(p)` for the selected positions `sel`, sorted by the
/// text `key(p)` (descending when `desc`), rows with equal keys in stored
/// order.
pub open spec fn listed_by_text<V>(
    sel: Seq<usize>,
    key: spec_fn(int) -> Seq<char>,
    item: spec_fn(int) -> V,
    desc: bool,
    out: Seq<V>,
) -> bool {
    exists|order: Seq<usize>|
        {
            &&& #[trigger] sorted_text_order(selected_text_keys(sel, key), order, desc)
            &&& out.len() == sel.len()
            &&& forall|k: int| 0 <= k < out.len() ==> #[trigger] out[k] == item(sel[order[k] as int] as int)
        }
}

/// `out` lists `item(p)` for the selected positions `sel`, sorted by the
/// number `key(p)` in ascending order, rows with equal keys in stored order.
pub open spec fn listed_by_int<V>(
    sel: Seq<usize>,
    key: spec_fn(int) -> i64,
    item: spec_fn(int) -> V,
    out: Seq<V>,
) -> bool {
    exists|order: Seq<usize>|
        {
            &&& #[trigger] sorted_int_order(selected_int_keys(sel, key), order)
            &&& out.len() == sel.len()
            &&& forall|k: int| 0 <= k < out.len() ==> #[trigger] out[k] == item(sel[order[k] as int] as int)
        }
}

/// `out` lists `item(p)` for the selected positions `sel`, in stored order.
pub open spec fn listed_in_place<V>(sel: Seq<usize>, item: spec_fn(int) -> V, out: Seq<V>) -> bool {
    &&& out.len() == sel.len()
    &&& forall|k: int| 0 <= k < out.len() ==> #[trigger] out[k] == item(sel[k] as int)
}

/// A listing sorted by a text key is determined by the rows: two answers
/// that both meet it are equal.
pub proof fn law_text_listing_is_determined<V>(
    sel: Seq<usize>,
    key: spec_fn(int) -> Seq<char>,
    item: spec_fn(int) -> V,
    desc: bool,
    out1: Seq<V>,
    out2: Seq<V>,
)
    requires
        listed_by_text(sel, key, item, desc, out1),
        listed_by_text(sel, key, item, desc, out2),
    ensures
        out1 == out2,
{
    let o1 = choose|order: Seq<usize>|
        {
            &&& #[trigger] sorted_text_order(selected_text_keys(sel, key), order, desc)
            &&& out1.len() == sel.len()
            &&& forall|k: int| 0 <= k < out1.len() ==> #[trigger] out1[k] == item(sel[order[k] as int] as int)
        };
    let o2 = choose|order: Seq<usize>|
        {
            &&& #[trigger] sorted_text_order(selected_text_keys(sel, key), order, desc)
            &&& out2.len() == sel.len()
            &&& forall|k: int| 0 <= k < out2.len() ==> #[trigger] out2[k] == item(sel[order[k] as int] as int)
        };
    law_sorted_text_order_unique(selected_text_keys(sel, key), o1, o2, desc);
    assert(out1 =~= out2);
}

/// A listing sorted by a number key is determined by the rows: two answers
/// that both meet it are equal.
pub proof fn law_int_listing_is_determined<V>(
    sel: Seq<usize>,
    key: spec_fn(int) -> i64,
    item: spec_fn(int) -> V,
    out1: Seq<V>,
    out2: Seq<V>,
)
    requires
        listed_by_int(sel, key, item, out1),
        listed_by_int(sel, key, item, out2),
    ensures
        out1 == out2,
{
    let o1 = choose|order: Seq<usize>|
        {
            &&& #[trigger] sorted_int_order(selected_int_keys(sel, key), order)
            &&& out1.len() == sel.len()
            &&& forall|k: int| 0 <= k < out1.len() ==> #[trigger] out1[k] == item(sel[order[k] as int] as int)
        };
    let o2 = choose|order: Seq<usize>|
        {
            &&& #[trigger] sorted_int_order(selected_int_keys(sel, key), order)
            &&& out2.len() == sel.len()
            &&& forall|k: int| 0 <= k < out2.len() ==> #[trigger] out2[k] == item(sel[order[k] as int] as int)
        };
    law_sorted_int_order_unique(selected_int_keys(sel, key), o1, o2);
    assert(out1 =~= out2);
}

/// Position `p` is among the selected positions `sel`.
pub open spec fn is_selected(sel: Seq<usize>, p: int) -> bool {
    exists|k: int| 0 <= k < sel.len() && #[trigger] sel[k] == p
}

/// A selection lists exactly the positions below `n` that `keep` selects,
/// each once and in ascending order.
pub proof fn lemma_select_members(n: int, keep: spec_fn(int) -> bool)
    requires
        n <= usize::MAX,
    ensures
        forall|p: int| #[trigger] is_selected(select_positions(n, keep), p) <==> (0 <= p < n && keep(p)),
        forall|i: int, j: int|
            0 <= i < j < select_positions(n, keep).len() ==> #[trigger] select_positions(n, keep)[i]
                < #[trigger] select_positions(n, keep)[j],
        forall|k: int|
            0 <= k < select_positions(n, keep).len() ==> 0 <= #[trigger] select_positions(n, keep)[k]
                < n,
    decreases n,
{
    if n > 0 {
        lemma_select_members(n - 1, keep);
        let prev = select_positions(n - 1, keep);
        let cur = select_positions(n, keep);
        assert forall|p: int| #[trigger] is_selected(cur, p) <==> (0 <= p < n && keep(p)) by {
            if is_selected(cur, p) {
                let k = choose|k: int| 0 <= k < cur.len() && #[trigger] cur[k] == p;
                if k < prev.len() {
                    assert(cur[k] == prev[k]);
                    assert(is_selected(prev, p));
                }
            }
            if 0 <= p < n && keep(p) {
                if p == n - 1 {
                    assert(cur[prev.len() as int] == p);
                } else {
                    assert(is_selected(prev, p));
                    let k = choose|k: int| 0 <= k < prev.len() && #[trigger] prev[k] == p;
                    assert(cur[k] == p);
                }
            }
        }
    }
}

/// What a listing sorted by text holds: the items of the selected
/// positions.
pub proof fn lemma_text_listing_members<V>(
    sel: Seq<usize>,
    key: spec_fn(int) -> Seq<char>,
    item: spec_fn(int) -> V,
    desc: bool,
    out: Seq<V>,
)
    requires
        listed_by_text(sel, key, item, desc, out),
    ensures
        forall|v: V|
            out.contains(v) <==> exists|k: int| 0 <= k < sel.len() && #[trigger] item(sel[k] as int) == v,
{
    let order = choose|order: Seq<usize>|
        {
            &&& #[trigger] sorted_text_order(selected_text_keys(sel, key), order, desc)
            &&& out.len() == sel.len()
            &&& forall|k: int| 0 <= k < out.len() ==> #[trigger] out[k] == item(sel[order[k] as int] as int)
        };
    assert forall|v: V|
        out.contains(v) <==> exists|k: int| 0 <= k < sel.len() && #[trigger] item(sel[k] as int) == v by {
        if out.contains(v) {
            let j = choose|j: int| 0 <= j < out.len() && out[j] == v;
            let k = order[j] as int;
            assert(item(sel[k] as int) == v);
        }
        if exists|k: int| 0 <= k < sel.len() && #[trigger] item(sel[k] as int) == v {
            let k = choose|k: int| 0 <= k < sel.len() && #[trigger] item(sel[k] as int) == v;
            assert(crate::sort::occurs(order, k));
            let j = choose|j: int| 0 <= j < order.len() && #[trigger] order[j] == k;
            assert(out[j] == v);
        }
    }
}

/// A listing sorted by text holds no item twice when distinct selected
/// positions give distinct items.
pub proof fn lemma_text_listing_distinct<V>(
    sel: Seq<usize>,
    key: spec_fn(int) -> Seq<char>,
    item: spec_fn(int) -> V,
    desc: bool,
    out: Seq<V>,
)
    requires
        listed_by_text(sel, key, item, desc, out),
        forall|i: int, j: int| 0 <= i < j < sel.len() ==> #[trigger] sel[i] != #[trigger] sel[j],
        forall|i: int, j: int|
            0 <= i < sel.len() && 0 <= j < sel.len() && #[trigger] item(sel[i] as int) == #[trigger] item(
                sel[j] as int,
            ) ==> sel[i] == sel[j],
    ensures
        out.no_duplicates(),
{
    let order = choose|order: Seq<usize>|
        {
            &&& #[trigger] sorted_text_order(selected_text_keys(sel, key), order, desc)
            &&& out.len() == sel.len()
            &&& forall|k: int| 0 <= k < out.len() ==> #[trigger] out[k] == item(sel[order[k] as int] as int)
        };
    assert forall|i: int, j: int| 0 <= i < out.len() && 0 <= j < out.len() && i != j implies out[i]
        != out[j] by {
        let a = order[i] as int;
        let b = order[j] as int;
        if out[i] == out[j] {
            assert(item(sel[a] as int) == item(sel[b] as int));
            if a != b {
                if a < b {
                    assert(sel[a] != sel[b]);
                } else {
                    assert(sel[b] != sel[a]);
                }
            }
            if i < j {
                assert(order[i] != order[j]);
            } else {
                assert(order[j] != order[i]);
            }
        }
    }
}

/// A listing of the positions that one selection keeps holds exactly the
/// items of a listing of a wider selection that meet `pred`, when a
/// position is kept by the first exactly if the second keeps it and its
/// item meets `pred`.
pub proof fn lemma_listing_filter<V>(
    n: int,
    keep_sub: spec_fn(int) -> bool,
    keep_all: spec_fn(int) -> bool,
    pred: spec_fn(V) -> bool,
    key: spec_fn(int) -> Seq<char>,
    item: spec_fn(int) -> V,
    desc: bool,
    sub: Seq<V>,
    all: Seq<V>,
)
    requires
        n <= usize::MAX,
        listed_by_text(select_positions(n, keep_sub), key, item, desc, sub),
        listed_by_text(select_positions(n, keep_all), key, item, desc, all),
        forall|p: int| 0 <= p < n ==> (#[trigger] keep_sub(p) <==> keep_all(p) && pred(item(p))),
    ensures
        forall|v: V| sub.contains(v) <==> all.contains(v) && pred(v),
{
    let ss = select_positions(n, keep_sub);
    let sa = select_positions(n, keep_all);
    lemma_select_members(n, keep_sub);
    lemma_select_members(n, keep_all);
    lemma_text_listing_members(ss, key, item, desc, sub);
    lemma_text_listing_members(sa, key, item, desc, all);
    assert forall|v: V| sub.contains(v) <==> all.contains(v) && pred(v) by {
        if sub.contains(v) {
            let k = choose|k: int| 0 <= k < ss.len() && #[trigger] item(ss[k] as int) == v;
            let p = ss[k] as int;
            assert(is_selected(ss, p));
            assert(keep_sub(p));
            assert(is_selected(sa, p));
            let j = choose|j: int| 0 <= j < sa.len() && #[trigger] sa[j] == p;
            assert(item(sa[j] as int) == v);
        }
        if all.contains(v) && pred(v) {
            let k = choose|k: int| 0 <= k < sa.len() && #[trigger] item(sa[k] as int) == v;
            let p = sa[k] as int;
            assert(is_selected(sa, p));
            assert(keep_sub(p));
            assert(is_selected(ss, p));
            let j = choose|j: int| 0 <= j < ss.len() && #[trigger] ss[j] == p;
            assert(item(ss[j] as int) == v);
        }
    }
}

/// A listing of the positions that one selection keeps holds only items of
/// a listing of a selection that keeps at least those positions.
pub proof fn lemma_listing_within<V>(
    n: int,
    keep_sub: spec_fn(int) -> bool,
    keep_all: spec_fn(int) -> bool,
    key: spec_fn(int) -> Seq<char>,
    item: spec_fn(int) -> V,
    desc: bool,
    sub: Seq<V>,
    all: Seq<V>,
)
    requires
        n <= usize::MAX,
        listed_by_text(select_positions(n, keep_sub), key, item, desc, sub),
        listed_by_text(select_positions(n, keep_all), key, item, desc, all),
        forall|p: int| 0 <= p < n && #[trigger] keep_sub(p) ==> keep_all(p),
    ensures
        forall|v: V| sub.contains(v) ==> all.contains(v),
{
    let ss = select_positions(n, keep_sub);
    let sa = select_positions(n, keep_all);
    lemma_select_members(n, keep_sub);
    lemma_select_members(n, keep_all);
    lemma_text_listing_members(ss, key, item, desc, sub);
    lemma_text_listing_members(sa, key, item, desc, all);
    assert forall|v: V| sub.contains(v) implies all.contains(v) by {
        let k = choose|k: int| 0 <= k < ss.len() && #[trigger] item(ss[k] as int) == v;
        let p = ss[k] as int;
        assert(is_selected(ss, p));
        assert(keep_sub(p));
        assert(is_selected(sa, p));
        let j = choose|j: int| 0 <= j < sa.len() && #[trigger] sa[j] == p;
        assert(item(sa[j] as int) == v);
    }
}

/// A listing holds no item twice when distinct positions give distinct
/// items.
pub proof fn lemma_listing_distinct<V>(
    n: int,
    keep: spec_fn(int) -> bool,
    key: spec_fn(int) -> Seq<char>,
    item: spec_fn(int) -> V,
    desc: bool,
    out: Seq<V>,
)
    requires
        n <= usize::MAX,
        listed_by_text(select_positions(n, keep), key, item, desc, out),
        forall|p: int, q: int|
            0 <= p < n && 0 <= q < n && #[trigger] item(p) == #[trigger] item(q) ==> p == q,
    ensures
        out.no_duplicates(),
{
    let sel = select_positions(n, keep);
    lemma_select_members(n, keep);
    assert forall|i: int, j: int|
        0 <= i < sel.len() && 0 <= j < sel.len() && #[trigger] item(sel[i] as int) == #[trigger] item(
            sel[j] as int,
        ) implies sel[i] == sel[j] by {
        assert(0 <= sel[i] < n);
        assert(0 <= sel[j] < n);
    }
    lemma_text_listing_distinct(sel, key, item, desc, out);
}

/// A listing sorted by text is in the order of any field of its items that
/// equals the key of the item's position.
pub proof fn lemma_text_listing_sorted<V>(
    sel: Seq<usize>,
    key: spec_fn(int) -> Seq<char>,
    item: spec_fn(int) -> V,
    desc: bool,
    out: Seq<V>,
    field: spec_fn(V) -> Seq<char>,
)
    requires
        listed_by_text(sel, key, item, desc, out),
        forall|k: int| 0 <= k < sel.len() ==> field(item(#[trigger] sel[k] as int)) == key(sel[k] as int),
    ensures
        forall|i: int, j: int|
            0 <= i < j < out.len() ==> ordered_text(field(#[trigger] out[i]), field(#[trigger] out[j]), desc),
{
    let order = choose|order: Seq<usize>|
        {
            &&& #[trigger] sorted_text_order(selected_text_keys(sel, key), order, desc)
            &&& out.len() == sel.len()
            &&& forall|k: int| 0 <= k < out.len() ==> #[trigger] out[k] == item(sel[order[k] as int] as int)
        };
    let keys = selected_text_keys(sel, key);
    assert forall|i: int, j: int| 0 <= i < j < out.len() implies ordered_text(
        field(#[trigger] out[i]),
        field(#[trigger] out[j]),
        desc,
    ) by {
        assert(ordered_text(keys[order[i] as int], keys[order[j] as int], desc));
        assert(is_index_perm(order, sel.len() as int));
        assert(0 <= order[i] < sel.len());
        assert(0 <= order[j] < sel.len());
        assert(field(item(sel[order[i] as int] as int)) == key(sel[order[i] as int] as int));
        assert(field(item(sel[order[j] as int] as int)) == key(sel[order[j] as int] as int));
    }
}

/// A listing sorted by number is in ascending order of any field of its
/// items that equals the key of the item's position.
pub proof fn lemma_int_listing_sorted<V>(
    sel: Seq<usize>,
    key: spec_fn(int) -> i64,
    item: spec_fn(int) -> V,
    out: Seq<V>,
    field: spec_fn(V) -> i64,
)
    requires
        listed_by_int(sel, key, item, out),
        forall|k: int| 0 <= k < sel.len() ==> field(item(#[trigger] sel[k] as int)) == key(sel[k] as int),
    ensures
        forall|i: int, j: int| 0 <= i < j < out.len() ==> field(#[trigger] out[i]) <= field(#[trigger] out[j]),
{
    let order = choose|order: Seq<usize>|
        {
            &&& #[trigger] sorted_int_order(selected_int_keys(sel, key), order)
            &&& out.len() == sel.len()
            &&& forall|k: int| 0 <= k < out.len() ==> #[trigger] out[k] == item(sel[order[k] as int] as int)
        };
    let keys = selected_int_keys(sel, key);
    assert forall|i: int, j: int| 0 <= i < j < out.len() implies field(#[trigger] out[i]) <= field(
        #[trigger] out[j],
    ) by {
        assert(keys[order[i] as int] <= keys[order[j] as int]);
        assert(is_index_perm(order, sel.len() as int));
        assert(0 <= order[i] < sel.len());
        assert(0 <= order[j] < sel.len());
        assert(field(item(sel[order[i] as int] as int)) == key(sel[order[i] as int] as int));
        assert(field(item(sel[order[j] as int] as int)) == key(sel[order[j] as int] as int));
    }
}

/// A user without the password hash.
pub open spec fn user_out(u: UserRecordView) -> UserView {
    UserView {
        user_id: u.user_id,
        username: u.username,
        email: u.email,
        phone: u.phone,
        creation_time: u.creation_time,
    }
}

/// Selects every row.
pub open spec fn keep_all() -> spec_fn(int) -> bool {
    |p: int| true
}

impl HubView {
    // ------------------------------------------------------------- users
    /// Users are listed newest first: by creation time read as seconds since
    /// 1970, latest first; creation times that are not times come last.
    pub open spec fn user_recency_key(self) -> spec_fn(int) -> i64 {
        |p: int| recency_key(self.users[p].creation_time)
    }

    pub open spec fn user_item(self) -> spec_fn(int) -> UserView {
        |p: int| user_out(self.users[p])
    }

    /// `out` is the list of all users, newest first.
    pub open spec fn users_listing(self, out: Seq<UserView>) -> bool {
        listed_by_int(
            select_positions(self.users.len() as int, keep_all()),
            self.user_recency_key(),
            self.user_item(),
            out,
        )
    }

    // ----------------------------------------------------------- artists
    /// Artists are listed alphabetically by name: ASCII letters compare
    /// regardless of case, other characters by code point.
    pub open spec fn artist_name_key(self) -> spec_fn(int) -> Seq<char> {
        |p: int| fold_text(self.artists[p].name)
    }

    pub open spec fn artist_item(self) -> spec_fn(int) -> ArtistView {
        |p: int| self.artists[p]
    }

    /// `out` is the list of all artists, alphabetically by name.
    pub open spec fn artists_listing(self, out: Seq<ArtistView>) -> bool {
        listed_by_text(
            select_positions(self.artists.len() as int, keep_all()),
            self.artist_name_key(),
            self.artist_item(),
            false,
            out,
        )
    }

    // ------------------------------------------------------------ events
    /// Events are listed by date.
    pub open spec fn event_date_key(self) -> spec_fn(int) -> Seq<char> {
        |p: int| self.events[p].event_date
    }

    pub open spec fn event_item(self) -> spec_fn(int) -> EventView {
        |p: int| self.event_out(self.events[p])
    }

    /// The events of artist `id` whose artist exists.
    pub open spec fn keep_artist_events(self, id: Seq<char>) -> spec_fn(int) -> bool {
        |p: int| self.events[p].artist_id == id && self.has_artist_of(self.events[p])
    }

    /// The events whose artist exists and that pass the filters `f`.
    pub open spec fn keep_found_events(self, f: EventSearchView) -> spec_fn(int) -> bool {
        |p: int|
            self.has_artist_of(self.events[p]) && event_passes(
                f,
                self.events[p],
                self.artist_of(self.events[p]),
            )
    }

    /// `out` is the list of the events of artist `id`, by date.
    pub open spec fn artist_events_listing(self, id: Seq<char>, out: Seq<EventView>) -> bool {
        listed_by_text(
            select_positions(self.events.len() as int, self.keep_artist_events(id)),
            self.event_date_key(),
            self.event_item(),
            false,
            out,
        )
    }

    /// `out` is the list of the events that pass the filters `f`, by date.
    pub open spec fn events_listing(self, f: EventSearchView, out: Seq<EventView>) -> bool {
        listed_by_text(
            select_positions(self.events.len() as int, self.keep_found_events(f)),
            self.event_date_key(),
            self.event_item(),
            false,
            out,
        )
    }

    // ----------------------------------------------------------- tickets
    /// Tiers are listed by price.
    pub open spec fn ticket_price_key(self) -> spec_fn(int) -> i64 {
        |p: int| self.tickets[p].price_cents
    }

    pub open spec fn ticket_named_item(self) -> spec_fn(int) -> TicketView {
        |p: int| self.ticket_out_named(self.tickets[p])
    }

    pub open spec fn ticket_plain_item(self) -> spec_fn(int) -> TicketView {
        |p: int| ticket_out_plain(self.tickets[p])
    }

    /// The tiers whose event and artist exist.
    pub open spec fn keep_joined_tickets(self) -> spec_fn(int) -> bool {
        |p: int| self.has_event_of(self.tickets[p])
    }

    /// The tiers of event `id`.
    pub open spec fn keep_event_tickets(self, id: Seq<char>) -> spec_fn(int) -> bool {
        |p: int| self.tickets[p].event_id == id
    }

    /// `out` is the list of all tiers, cheapest first, named after their
    /// events.
    pub open spec fn tickets_listing(self, out: Seq<TicketView>) -> bool {
        listed_by_int(
            select_positions(self.tickets.len() as int, self.keep_joined_tickets()),
            self.ticket_price_key(),
            self.ticket_named_item(),
            out,
        )
    }

    /// `out` is the list of the tiers of event `id`, in stored order.
    pub open spec fn event_tickets_listing(self, id: Seq<char>, out: Seq<TicketView>) -> bool {
        listed_in_place(
            select_positions(self.tickets.len() as int, self.keep_event_tickets(id)),
            self.ticket_plain_item(),
            out,
        )
    }

    // ------------------------------------------------------------ orders
    /// Orders are listed newest first by date of purchase.
    pub open spec fn order_date_key(self) -> spec_fn(int) -> Seq<char> {
        |p: int| self.orders[p].date_of_purchase
    }

    pub open spec fn order_item(self) -> spec_fn(int) -> OrderView {
        |p: int| self.order_out(self.orders[p])
    }

    /// The orders whose tier, event and artist exist.
    pub open spec fn keep_joined_orders(self) -> spec_fn(int) -> bool {
        |p: int| self.has_ticket_of(self.orders[p])
    }

    /// The orders of user `id` whose tier, event and artist exist.
    pub open spec fn keep_user_orders(self, id: Seq<char>) -> spec_fn(int) -> bool {
        |p: int| self.orders[p].user_id == id && self.has_ticket_of(self.orders[p])
    }

    /// `out` is the list of all orders, newest first.
    pub open spec fn orders_listing(self, out: Seq<OrderView>) -> bool {
        listed_by_text(
            select_positions(self.orders.len() as int, self.keep_joined_orders()),
            self.order_date_key(),
            self.order_item(),
            true,
            out,
        )
    }

    /// `out` is the list of the orders of user `id`, newest first.
    pub open spec fn user_orders_listing(self, id: Seq<char>, out: Seq<OrderView>) -> bool {
        listed_by_text(
            select_positions(self.orders.len() as int, self.keep_user_orders(id)),
            self.order_date_key(),
            self.order_item(),
            true,
            out,
        )
    }

    // ----------------------------------------------------------- lookups
    /// The user with id `id`, without the password hash.
    pub open spec fn user_lookup(self, id: Seq<char>) -> Option<UserView> {
        if holds_key(self.user_ids(), id) {
            Some(user_out(self.users[key_pos(self.user_ids(), id)]))
        } else {
            None
        }
    }

    /// The stored row of user `id`.
    pub open spec fn user_row(self, id: Seq<char>) -> Option<UserRecordView> {
        if holds_key(self.user_ids(), id) {
            Some(self.users[key_pos(self.user_ids(), id)])
        } else {
            None
        }
    }

    /// The artist with id `id`.
    pub open spec fn artist_lookup(self, id: Seq<char>) -> Option<ArtistView> {
        if holds_key(self.artist_ids(), id) {
            Some(self.artists[key_pos(self.artist_ids(), id)])
        } else {
            None
        }
    }

    /// The event with id `id` joined with its artist's name; none when the
    /// event or its artist is missing.
    pub open spec fn event_lookup(self, id: Seq<char>) -> Option<EventView> {
        if holds_key(self.event_ids(), id) && self.has_artist_of(
            self.events[key_pos(self.event_ids(), id)],
        ) {
            Some(self.event_out(self.events[key_pos(self.event_ids(), id)]))
        } else {
            None
        }
    }

    /// The stored row of event `id`.
    pub open spec fn event_row(self, id: Seq<char>) -> Option<EventRecordView> {
        if holds_key(self.event_ids(), id) {
            Some(self.events[key_pos(self.event_ids(), id)])
        } else {
            None
        }
    }

    /// The stored row of ticket tier `id`.
    pub open spec fn ticket_row(self, id: Seq<char>) -> Option<TicketRecordView> {
        if holds_key(self.ticket_ids(), id) {
            Some(self.tickets[key_pos(self.ticket_ids(), id)])
        } else {
            None
        }
    }

    /// The stored row of order `id`.
    pub open spec fn order_row(self, id: Seq<char>) -> Option<OrderRecordView> {
        if holds_key(self.order_ids(), id) {
            Some(self.orders[key_pos(self.order_ids(), id)])
        } else {
            None
        }
    }

    /// The artist of event `e` exists.
    pub open spec fn has_artist_of(self, e: EventRecordView) -> bool {
        holds_key(self.artist_ids(), e.artist_id)
    }

    /// The artist of event `e`.
    pub open spec fn artist_of(self, e: EventRecordView) -> ArtistView {
        self.artists[key_pos(self.artist_ids(), e.artist_id)]
    }

    /// The event of tier `t` and that event's artist exist.
    pub open spec fn has_event_of(self, t: TicketRecordView) -> bool {
        holds_key(self.event_ids(), t.event_id) && self.has_artist_of(self.event_of(t))
    }

    /// The event of tier `t`.
    pub open spec fn event_of(self, t: TicketRecordView) -> EventRecordView {
        self.events[key_pos(self.event_ids(), t.event_id)]
    }

    /// The tier of order `o`, its event and that event's artist exist.
    pub open spec fn has_ticket_of(self, o: OrderRecordView) -> bool {
        holds_key(self.ticket_ids(), o.ticket_id) && self.has_event_of(self.ticket_of(o))
    }

    /// The tier of order `o`.
    pub open spec fn ticket_of(self, o: OrderRecordView) -> TicketRecordView {
        self.tickets[key_pos(self.ticket_ids(), o.ticket_id)]
    }

    /// An event joined with its artist's name.
    pub open spec fn event_out(self, e: EventRecordView) -> EventView {
        EventView {
            event_id: e.event_id,
            artist_id: e.artist_id,
            artist_name: Some(self.artist_of(e).name),
            venue_name: e.venue_name,
            city: e.city,
            state: e.state,
            event_date: e.event_date,
            capacity: e.capacity,
        }
    }

    /// A tier named after its event: the venue, ` — ` and the artist's name.
    pub open spec fn ticket_out_named(self, t: TicketRecordView) -> TicketView {
        let e = self.event_of(t);
        TicketView {
            ticket_id: t.ticket_id,
            event_id: t.event_id,
            event_name: Some(e.venue_name + " — "@ + self.artist_of(e).name),
            price_cents: t.price_cents,
            num_available: t.num_available,
        }
    }

    /// An order joined with its tier, event and artist.
    pub open spec fn order_out(self, o: OrderRecordView) -> OrderView {
        let t = self.ticket_of(o);
        let e = self.event_of(t);
        OrderView {
            order_id: o.order_id,
            user_id: o.user_id,
            ticket_id: o.ticket_id,
            date_of_purchase: o.date_of_purchase,
            event_name: None,
            venue_name: Some(e.venue_name),
            city: Some(e.city),
            state: Some(e.state),
            event_date: Some(e.event_date),
            price_cents: Some(t.price_cents),
            artist_name: Some(self.artist_of(e).name),
        }
    }
}

/// A tier without an event name.
pub open spec fn ticket_out_plain(t: TicketRecordView) -> TicketView {
    TicketView {
        ticket_id: t.ticket_id,
        event_id: t.event_id,
        event_name: None,
        price_cents: t.price_cents,
        num_available: t.num_available,
    }
}

/// `text` contains `needle` in the sense of `LIKE '%' || needle || '%'`:
/// `%` and `_` in the needle are wildcards and ASCII case is ignored.
pub open spec fn like_contains(text: Seq<char>, needle: Seq<char>) -> bool {
    sql_like(text, seq!['%'] + needle + seq!['%'])
}

/// Event `e` (with artist `a`) passes every filter that `f` gives: artist
/// name and city contain the given texts, and the date is within the given
/// bounds.
pub open spec fn event_passes(f: EventSearchView, e: EventRecordView, a: ArtistView) -> bool {
    &&& (f.artist matches Some(v) ==> like_contains(a.name, v))
    &&& (f.city matches Some(v) ==> like_contains(e.city, v))
    &&& (f.date_from matches Some(v) ==> text_le(v, e.event_date))
    &&& (f.date_to matches Some(v) ==> text_le(e.event_date, v))
}

} // verus!
