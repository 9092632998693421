//! The registry of live WebSocket clients of the notification service: which
//! connections watch which order, and who receives a status message for an order.
//! Order `0` stands for the clients that watch every order.

use vstd::prelude::*;
use std::collections::HashMap;

use crate::text::same_text;

verus! {

broadcast use vstd::std_specs::hash::group_hash_axioms;

/// The connections of one order, in registration order: their ids and senders.
pub open spec fn conn_entries<T>(v: Vec<(String, T)>) -> Seq<(Seq<char>, T)> {
    v@.map_values(|p: (String, T)| (p.0@, p.1))
}

/// No connection id occurs twice.
pub open spec fn conn_ids_distinct<T>(s: Seq<(Seq<char>, T)>) -> bool {
    forall|i: int, j: int| 0 <= i < j < s.len() ==> #[trigger] s[i].0 != #[trigger] s[j].0
}

/// The connection `id` is registered in `s`.
pub open spec fn has_conn<T>(s: Seq<(Seq<char>, T)>, id: Seq<char>) -> bool {
    exists|i: int| 0 <= i < s.len() && #[trigger] s[i].0 == id
}

/// The place of the connection `id` in `s`.
pub open spec fn conn_index<T>(s: Seq<(Seq<char>, T)>, id: Seq<char>) -> int {
    choose|i: int| 0 <= i < s.len() && #[trigger] s[i].0 == id
}

/// Every watched order has at least one connection, and connection ids are distinct
/// within an order.
pub open spec fn hub_wf<T>(m: Map<i64, Seq<(Seq<char>, T)>>) -> bool {
    forall|o: i64| #[trigger] m.contains_key(o) ==> m[o].len() > 0 && conn_ids_distinct(m[o])
}

/// The connections that watch order `o`.
pub open spec fn conns_of<T>(m: Map<i64, Seq<(Seq<char>, T)>>, o: i64) -> Seq<(Seq<char>, T)> {
    if m.contains_key(o) {
        m[o]
    } else {
        Seq::empty()
    }
}

/// `s` with the sender of connection `id` set to `tx` (replacing an earlier one).
pub open spec fn with_conn<T>(s: Seq<(Seq<char>, T)>, id: Seq<char>, tx: T) -> Seq<(Seq<char>, T)> {
    if has_conn(s, id) {
        s.update(conn_index(s, id), (id, tx))
    } else {
        s.push((id, tx))
    }
}

/// `s` without connection `id`.
pub open spec fn without_conn<T>(s: Seq<(Seq<char>, T)>, id: Seq<char>) -> Seq<(Seq<char>, T)> {
    if has_conn(s, id) {
        s.remove(conn_index(s, id))
    } else {
        s
    }
}

/// The registry after client `id` starts watching order `o` with sender `tx`.
pub open spec fn hub_add<T>(m: Map<i64, Seq<(Seq<char>, T)>>, o: i64, id: Seq<char>, tx: T) -> Map<
    i64,
    Seq<(Seq<char>, T)>,
> {
    m.insert(o, with_conn(conns_of(m, o), id, tx))
}

/// The registry after client `id` stops watching order `o`; an order left without
/// clients is dropped.
pub open spec fn hub_remove<T>(m: Map<i64, Seq<(Seq<char>, T)>>, o: i64, id: Seq<char>) -> Map<
    i64,
    Seq<(Seq<char>, T)>,
> {
    if m.contains_key(o) {
        let r = without_conn(m[o], id);
        if r.len() == 0 {
            m.remove(o)
        } else {
            m.insert(o, r)
        }
    } else {
        m
    }
}

/// The senders of the connections in `s`.
pub open spec fn senders<T>(s: Seq<(Seq<char>, T)>) -> Seq<T> {
    s.map_values(|p: (Seq<char>, T)| p.1)
}

/// The senders that a status message for order `o` goes to: the watchers of `o`,
/// then, for an order other than `0`, the watchers of every order.
pub open spec fn hub_targets<T>(m: Map<i64, Seq<(Seq<char>, T)>>, o: i64) -> Seq<T> {
    senders(conns_of(m, o)) + if o != 0 {
        senders(conns_of(m, 0))
    } else {
        Seq::empty()
    }
}

proof fn lemma_without_conn<T>(s: Seq<(Seq<char>, T)>, id: Seq<char>)
    requires
        conn_ids_distinct(s),
    ensures
        conn_ids_distinct(without_conn(s, id)),
        !has_conn(without_conn(s, id), id),
{
    let r = without_conn(s, id);
    if has_conn(s, id) {
        let k = conn_index(s, id);
        assert forall|i: int| 0 <= i < r.len() implies #[trigger] r[i].0 != id by {
            if i < k {
                assert(r[i] == s[i]);
            } else {
                assert(r[i] == s[i + 1]);
            }
        }
        assert forall|a: int, b: int| 0 <= a < b < r.len() implies #[trigger] r[a].0
            != #[trigger] r[b].0 by {
            if a < k {
                if b < k {
                    assert(r[a] == s[a] && r[b] == s[b]);
                } else {
                    assert(r[a] == s[a] && r[b] == s[b + 1]);
                }
            } else {
                assert(r[a] == s[a + 1] && r[b] == s[b + 1]);
            }
        }
    }
}

/// The clients of a registry's table, by order.
spec fn registry_view<T>(inner: HashMap<i64, Vec<(String, T)>>) -> Map<i64, Seq<(Seq<char>, T)>> {
    inner@.map_values(|v: Vec<(String, T)>| conn_entries(v))
}

/// Registry of WebSocket clients by the order they watch.
pub struct WsHub<T> {
    inner: HashMap<i64, Vec<(String, T)>>,
}

impl<T> View for WsHub<T> {
    type V = Map<i64, Seq<(Seq<char>, T)>>;

    closed spec fn view(&self) -> Map<i64, Seq<(Seq<char>, T)>> {
        registry_view(self.inner)
    }
}

impl<T> Default for WsHub<T> {
    /// A registry with no clients.
    fn default() -> (res: Self)
        ensures
            res@ == Map::<i64, Seq<(Seq<char>, T)>>::empty(),
    {
        WsHub::new()
    }
}

/// The first place of connection `id` in `conns`.
fn position_of<T>(conns: &Vec<(String, T)>, id: &str) -> (res: Option<usize>)
    ensures
        match res {
            Some(i) => i < conns@.len() && conns@[i as int].0@ == id@,
            None => !has_conn(conn_entries(*conns), id@),
        },
{
    let mut i: usize = 0;
    while i < conns.len()
        invariant
            i <= conns.len(),
            forall|j: int| 0 <= j < i ==> conns@[j].0@ != id@,
        decreases conns.len() - i,
    {
        if same_text(conns[i].0.as_str(), id) {
            return Some(i);
        }
        i = i + 1;
    }
    assert forall|j: int| 0 <= j < conn_entries(*conns).len() implies #[trigger] conn_entries(
        *conns,
    )[j].0 != id@ by {
        assert(conn_entries(*conns)[j].0 == conns@[j].0@);
    }
    None
}

impl<T> WsHub<T> {
    /// The registry is consistent: no order is watched twice by one connection.
    #[verifier::type_invariant]
    spec fn inv(self) -> bool {
        hub_wf(self@)
    }

    /// A registry with no clients.
    pub fn new() -> (res: Self)
        ensures
            res@ == Map::<i64, Seq<(Seq<char>, T)>>::empty(),
            hub_wf(res@),
    {
        let inner: HashMap<i64, Vec<(String, T)>> = HashMap::new();
        assert(registry_view(inner) =~= Map::<i64, Seq<(Seq<char>, T)>>::empty());
        WsHub { inner }
    }

    /// Client `conn_id` starts watching `order_id` through `tx` (a client registered
    /// again keeps its place and gets the new sender).
    pub fn add_client(&mut self, order_id: i64, conn_id: String, tx: T)
        ensures
            hub_wf(final(self)@),
            final(self)@ == hub_add(old(self)@, order_id, conn_id@, tx),
    {
        proof {
            use_type_invariant(&*self);
        }
        let ghost old_m = self@;
        let ghost id = conn_id@;
        let mut inner: HashMap<i64, Vec<(String, T)>> = HashMap::new();
        assert(registry_view(inner) =~= Map::<i64, Seq<(Seq<char>, T)>>::empty());
        std::mem::swap(&mut inner, &mut self.inner);
        let mut conns = match inner.remove(&order_id) {
            Some(v) => v,
            None => Vec::new(),
        };
        assert(conn_entries(conns) == conns_of(old_m, order_id)) by {
            if !old_m.contains_key(order_id) {
                assert(conn_entries(conns) =~= Seq::<(Seq<char>, T)>::empty());
            }
        }
        let ghost s = conn_entries(conns);
        let pos = position_of(&conns, conn_id.as_str());
        match pos {
            Some(i) => {
                proof {
                    assert(s[i as int].0 == id);
                    assert(has_conn(s, id));
                    let k = conn_index(s, id);
                    if old_m.contains_key(order_id) {
                        assert(conn_ids_distinct(s));
                    }
                    assert(k == i);
                }
                conns.set(i, (conn_id, tx));
                assert(conn_entries(conns) =~= with_conn(s, id, tx));
            },
            None => {
                conns.push((conn_id, tx));
                assert(conn_entries(conns) =~= with_conn(s, id, tx));
            },
        }
        let ghost new_s = conn_entries(conns);
        proof {
            assert(new_s.len() > 0);
            assert forall|a: int, b: int| 0 <= a < b < new_s.len() implies #[trigger] new_s[a].0
                != #[trigger] new_s[b].0 by {
                if old_m.contains_key(order_id) {
                    assert(conn_ids_distinct(s));
                }
                if has_conn(s, id) {
                    let k = conn_index(s, id);
                    if a == k {
                        assert(new_s[a].0 == id);
                        assert(new_s[b] == s[b]);
                        if s[b].0 == id {
                            assert(s[k].0 == s[b].0);
                        }
                    } else if b == k {
                        assert(new_s[b].0 == id);
                        assert(new_s[a] == s[a]);
                    } else {
                        assert(new_s[a] == s[a] && new_s[b] == s[b]);
                    }
                } else {
                    if b == s.len() {
                        assert(new_s[a] == s[a]);
                        assert(s[a].0 != id);
                    } else {
                        assert(new_s[a] == s[a] && new_s[b] == s[b]);
                    }
                }
            }
        }
        inner.insert(order_id, conns);
        assert(registry_view(inner) =~= hub_add(old_m, order_id, id, tx));
        self.inner = inner;
    }

    /// Client `conn_id` stops watching `order_id`; an order left without clients is
    /// dropped from the registry.
    pub fn remove_client(&mut self, order_id: i64, conn_id: &str)
        ensures
            hub_wf(final(self)@),
            final(self)@ == hub_remove(old(self)@, order_id, conn_id@),
    {
        proof {
            use_type_invariant(&*self);
        }
        let ghost old_m = self@;
        let ghost id = conn_id@;
        let mut inner: HashMap<i64, Vec<(String, T)>> = HashMap::new();
        assert(registry_view(inner) =~= Map::<i64, Seq<(Seq<char>, T)>>::empty());
        std::mem::swap(&mut inner, &mut self.inner);
        match inner.remove(&order_id) {
            None => {
                assert(registry_view(inner) =~= old_m);
                self.inner = inner;
            },
            Some(conns) => {
                let mut conns = conns;
                let ghost s = conn_entries(conns);
                assert(old_m.contains_key(order_id));
                assert(s == old_m[order_id]);
                assert(conn_ids_distinct(s));
                match position_of(&conns, conn_id) {
                    Some(i) => {
                        proof {
                            assert(s[i as int].0 == id);
                            assert(has_conn(s, id));
                            assert(conn_index(s, id) == i);
                        }
                        let _removed = conns.remove(i);
                        assert(conn_entries(conns) =~= without_conn(s, id));
                    },
                    None => {
                        assert(conn_entries(conns) =~= without_conn(s, id));
                    },
                }
                proof {
                    lemma_without_conn(s, id);
                }
                if conns.len() == 0 {
                    assert(registry_view(inner) =~= hub_remove(old_m, order_id, id));
                    self.inner = inner;
                } else {
                    inner.insert(order_id, conns);
                    assert(registry_view(inner) =~= hub_remove(old_m, order_id, id));
                    self.inner = inner;
                }
            },
        }
    }

    /// The senders that a status message for `order_id` goes to: its watchers, then,
    /// for an order other than `0`, the watchers of every order.
    pub fn notify_order(&self, order_id: i64) -> (res: Vec<&T>)
        ensures
            res@.map_values(|r: &T| *r) == hub_targets(self@, order_id),
    {
        let mut out: Vec<&T> = Vec::new();
        match self.inner.get(&order_id) {
            Some(conns) => {
                let mut i: usize = 0;
                while i < conns.len()
                    invariant
                        i <= conns.len(),
                        out@.map_values(|r: &T| *r) == senders(conn_entries(*conns)).take(
                            i as int,
                        ),
                    decreases conns.len() - i,
                {
                    out.push(&conns[i].1);
                    assert(senders(conn_entries(*conns)).take(i + 1) == senders(
                        conn_entries(*conns),
                    ).take(i as int).push(conns@[i as int].1));
                    i = i + 1;
                }
                assert(senders(conn_entries(*conns)).take(conns.len() as int) == senders(
                    conn_entries(*conns),
                ));
            },
            None => {
                assert(out@.map_values(|r: &T| *r) =~= senders(conns_of(self@, order_id)));
            },
        }
        let ghost first = out@.map_values(|r: &T| *r);
        assert(first == senders(conns_of(self@, order_id)));
        if order_id != 0 {
            match self.inner.get(&0) {
                Some(conns) => {
                    let mut i: usize = 0;
                    while i < conns.len()
                        invariant
                            i <= conns.len(),
                            out@.map_values(|r: &T| *r) == first + senders(
                                conn_entries(*conns),
                            ).take(i as int),
                        decreases conns.len() - i,
                    {
                        out.push(&conns[i].1);
                        assert(first + senders(conn_entries(*conns)).take(i + 1) == (first
                            + senders(conn_entries(*conns)).take(i as int)).push(
                            conns@[i as int].1,
                        ));
                        i = i + 1;
                    }
                    assert(senders(conn_entries(*conns)).take(conns.len() as int) == senders(
                        conn_entries(*conns),
                    ));
                },
                None => {
                    assert(senders(conns_of(self@, 0)) =~= Seq::<T>::empty());
                    assert(first + Seq::<T>::empty() =~= first);
                },
            }
        } else {
            assert(first + Seq::<T>::empty() =~= first);
        }
        out
    }
}

/// Law: a client that starts watching order `o` receives the next message for `o`.
pub proof fn added_client_receives_order_messages<T>(
    m: Map<i64, Seq<(Seq<char>, T)>>,
    o: i64,
    id: Seq<char>,
    tx: T,
)
    requires
        hub_wf(m),
    ensures
        hub_targets(hub_add(m, o, id, tx), o).contains(tx),
{
    let n = hub_add(m, o, id, tx);
    let s = conns_of(m, o);
    let w = with_conn(s, id, tx);
    assert(conns_of(n, o) == w);
    let k = if has_conn(s, id) {
        conn_index(s, id)
    } else {
        s.len() as int
    };
    assert(w[k] == (id, tx));
    assert(senders(w)[k] == tx);
    assert(hub_targets(n, o)[k] == tx);
}

/// Law: a client that watches every order (order `0`) receives the next message for
/// any order.
pub proof fn global_client_receives_every_order<T>(
    m: Map<i64, Seq<(Seq<char>, T)>>,
    id: Seq<char>,
    tx: T,
    o: i64,
)
    requires
        hub_wf(m),
    ensures
        hub_targets(hub_add(m, 0, id, tx), o).contains(tx),
{
    let n = hub_add(m, 0, id, tx);
    added_client_receives_order_messages(m, 0, id, tx);
    if o != 0 {
        let g = senders(conns_of(n, 0));
        let t0 = hub_targets(n, 0);
        let j = choose|j: int| 0 <= j < t0.len() && t0[j] == tx;
        assert(t0 == g + Seq::<T>::empty());
        let f = senders(conns_of(n, o));
        assert(hub_targets(n, o)[f.len() + j] == g[j]);
    }
}

/// Law: a client that stops watching order `o` is no longer among its watchers.
pub proof fn removed_client_is_gone<T>(m: Map<i64, Seq<(Seq<char>, T)>>, o: i64, id: Seq<char>)
    requires
        hub_wf(m),
    ensures
        !has_conn(conns_of(hub_remove(m, o, id), o), id),
        hub_wf(hub_remove(m, o, id)),
{
    if m.contains_key(o) {
        let s = m[o];
        assert(conn_ids_distinct(s));
        lemma_without_conn(s, id);
        let n = hub_remove(m, o, id);
        assert forall|q: i64| #[trigger] n.contains_key(q) implies n[q].len() > 0
            && conn_ids_distinct(n[q]) by {
            if q != o {
                assert(m.contains_key(q));
            }
        }
    }
}

/// Law: registering a new client and then removing it gives back the registry as it was.
pub proof fn remove_undoes_add<T>(m: Map<i64, Seq<(Seq<char>, T)>>, o: i64, id: Seq<char>, tx: T)
    requires
        hub_wf(m),
        !has_conn(conns_of(m, o), id),
    ensures
        hub_remove(hub_add(m, o, id, tx), o, id) == m,
{
    let s = conns_of(m, o);
    let w = with_conn(s, id, tx);
    assert(w == s.push((id, tx)));
    assert(w[s.len() as int].0 == id);
    assert(has_conn(w, id));
    let k = conn_index(w, id);
    assert(k == s.len()) by {
        if k < s.len() {
            assert(w[k] == s[k]);
        }
    }
    assert(without_conn(w, id) =~= s);
    if m.contains_key(o) {
        assert(hub_remove(hub_add(m, o, id, tx), o, id) =~= m);
    } else {
        assert(hub_remove(hub_add(m, o, id, tx), o, id) =~= m);
    }
}

/// The place of a connection id in a list without repeated ids is the one place that
/// holds it.
proof fn lemma_conn_index_unique<T>(s: Seq<(Seq<char>, T)>, x: Seq<char>, i: int)
    requires
        conn_ids_distinct(s),
        0 <= i < s.len(),
        s[i].0 == x,
    ensures
        has_conn(s, x),
        conn_index(s, x) == i,
{
    assert(has_conn(s, x));
    let k = conn_index(s, x);
    if k < i {
        assert(s[k].0 != s[i].0);
    } else if i < k {
        assert(s[i].0 != s[k].0);
    }
}

/// Law: removing client `id` from order `o` leaves every other client of `o` watching
/// it with the same sender, removes exactly one watcher when `id` was one (none
/// otherwise), and leaves the other orders as they were.
pub proof fn remove_keeps_other_clients<T>(
    m: Map<i64, Seq<(Seq<char>, T)>>,
    o: i64,
    id: Seq<char>,
    x: Seq<char>,
)
    requires
        hub_wf(m),
        x != id,
    ensures
        has_conn(conns_of(hub_remove(m, o, id), o), x) == has_conn(conns_of(m, o), x),
        has_conn(conns_of(m, o), x) ==> conns_of(hub_remove(m, o, id), o)[conn_index(
            conns_of(hub_remove(m, o, id), o),
            x,
        )] == conns_of(m, o)[conn_index(conns_of(m, o), x)],
        conns_of(hub_remove(m, o, id), o).len() == conns_of(m, o).len() - (if has_conn(
            conns_of(m, o),
            id,
        ) {
            1int
        } else {
            0int
        }),
        forall|q: i64| q != o ==> #[trigger] conns_of(hub_remove(m, o, id), q) == conns_of(m, q),
{
    let n = hub_remove(m, o, id);
    let s = conns_of(m, o);
    let r = conns_of(n, o);
    assert(r == without_conn(s, id)) by {
        if m.contains_key(o) {
            if without_conn(m[o], id).len() == 0 {
                assert(r =~= without_conn(s, id));
            }
        }
    }
    assert(conn_ids_distinct(s)) by {
        if m.contains_key(o) {
            assert(m.contains_key(o));
        }
    }
    lemma_without_conn(s, id);
    if has_conn(s, id) {
        let k = conn_index(s, id);
        assert(s[k].0 == id);
        assert(r == s.remove(k));
        if has_conn(s, x) {
            let i = conn_index(s, x);
            assert(s[i].0 == x);
            assert(i != k);
            let j = if i < k {
                i
            } else {
                i - 1
            };
            assert(r[j] == s[i]);
            lemma_conn_index_unique(r, x, j);
        }
        if has_conn(r, x) {
            let j = conn_index(r, x);
            let i = if j < k {
                j
            } else {
                j + 1
            };
            assert(r[j] == s[i]);
            assert(s[i].0 == x);
            assert(has_conn(s, x));
        }
    } else {
        assert(r == s);
    }
    assert forall|q: i64| q != o implies #[trigger] conns_of(n, q) == conns_of(m, q) by {
        if m.contains_key(o) {
            if without_conn(m[o], id).len() == 0 {
                assert(n.contains_key(q) == m.contains_key(q));
            } else {
                assert(n.contains_key(q) == m.contains_key(q));
            }
        }
    }
}

/// Law: removing a client keeps the other clients of the order in the order they
/// registered in, so they receive messages in the same order as before.
pub proof fn remove_keeps_client_order<T>(
    m: Map<i64, Seq<(Seq<char>, T)>>,
    o: i64,
    id: Seq<char>,
    x: Seq<char>,
    y: Seq<char>,
)
    requires
        hub_wf(m),
        x != id,
        y != id,
        has_conn(conns_of(m, o), x),
        has_conn(conns_of(m, o), y),
    ensures
        (conn_index(conns_of(hub_remove(m, o, id), o), x) < conn_index(
            conns_of(hub_remove(m, o, id), o),
            y,
        )) == (conn_index(conns_of(m, o), x) < conn_index(conns_of(m, o), y)),
{
    let n = hub_remove(m, o, id);
    let s = conns_of(m, o);
    let r = conns_of(n, o);
    remove_keeps_other_clients(m, o, id, x);
    remove_keeps_other_clients(m, o, id, y);
    assert(r == without_conn(s, id)) by {
        if m.contains_key(o) {
            if without_conn(m[o], id).len() == 0 {
                assert(r =~= without_conn(s, id));
            }
        }
    }
    assert(conn_ids_distinct(s)) by {
        assert(m.contains_key(o));
    }
    lemma_without_conn(s, id);
    let ix = conn_index(s, x);
    let iy = conn_index(s, y);
    assert(s[ix].0 == x && s[iy].0 == y);
    if has_conn(s, id) {
        let k = conn_index(s, id);
        assert(s[k].0 == id);
        assert(r == s.remove(k));
        let jx = if ix < k {
            ix
        } else {
            ix - 1
        };
        let jy = if iy < k {
            iy
        } else {
            iy - 1
        };
        assert(r[jx] == s[ix]);
        assert(r[jy] == s[iy]);
        lemma_conn_index_unique(r, x, jx);
        lemma_conn_index_unique(r, y, jy);
    } else {
        assert(r == s);
    }
}

} // verus!
