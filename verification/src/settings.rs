//! The persisted settings record and the subscription-set synchronisation
//! rules: when a settings save changes the subscribed feed ids, every
//! added id gets a Subscribe and Announce pair and every removed id gets
//! an Unsubscribe.

use vstd::prelude::*;
use crate::walltaker::{
    spec_announce_message, spec_subscribe_message, spec_unsubscribe_message, subscribe_to,
    unsubscribe_from,
};

verus! {

/// The persisted settings record: the subscribed feed ids, the preferred
/// scaling mode, and whether wallpaper-change notifications are shown.
#[derive(Debug, PartialEq, Eq, Clone)]
pub struct Settings {
    pub subscribed: Vec<u64>,
    pub method: i32,
    pub notifications: bool,
}

/// The mathematical value of a [`Settings`] record.
pub struct SettingsM {
    pub subscribed: Seq<u64>,
    pub method: i32,
    pub notifications: bool,
}

impl View for Settings {
    type V = SettingsM;

    open spec fn view(&self) -> SettingsM {
        SettingsM {
            subscribed: self.subscribed@,
            method: self.method,
            notifications: self.notifications,
        }
    }
}

impl Settings {
    /// The record used when no persisted record can be read: no
    /// subscriptions, fill scaling, notifications on.
    pub fn load_or_new(loaded: Option<Settings>) -> (s: Settings)
        ensures
            match loaded {
                Some(l) => s@ == l@,
                None => s@ == (SettingsM {
                    subscribed: Seq::<u64>::empty(),
                    method: crate::wallpaper::METHOD_FILL,
                    notifications: true,
                }),
            },
    {
        match loaded {
            Some(l) => l,
            None => {
                let s = Settings {
                    subscribed: Vec::new(),
                    method: crate::wallpaper::METHOD_FILL,
                    notifications: true,
                };
                proof {
                    assert(s@.subscribed =~= Seq::<u64>::empty());
                }
                s
            },
        }
    }
}

/// Whether the list holds the id.
pub fn contains_id(v: &Vec<u64>, x: u64) -> (r: bool)
    ensures
        r == v@.contains(x),
{
    let n = v.len();
    for i in 0..n
        invariant
            n == v@.len(),
            forall|j: int| 0 <= j < i ==> v@[j] != x,
    {
        if v[i] == x {
            return true;
        }
    }
    false
}

/// The elements of `xs` that do not occur in `ys`, in order, duplicates
/// kept.
pub open spec fn spec_not_in(xs: Seq<u64>, ys: Seq<u64>) -> Seq<u64>
    decreases xs.len(),
{
    if xs.len() == 0 {
        Seq::empty()
    } else {
        spec_not_in(xs.drop_last(), ys) + (if ys.contains(xs.last()) {
            Seq::empty()
        } else {
            seq![xs.last()]
        })
    }
}

/// The ids a saved record adds over the previous one.
pub fn added_ids(previous: &Vec<u64>, current: &Vec<u64>) -> (r: Vec<u64>)
    ensures
        r@ == spec_not_in(current@, previous@),
{
    let mut r: Vec<u64> = Vec::new();
    let n = current.len();
    proof {
        assert(current@.take(0) =~= Seq::<u64>::empty());
    }
    for i in 0..n
        invariant
            n == current@.len(),
            r@ == spec_not_in(current@.take(i as int), previous@),
    {
        let ghost prev = r@;
        if !contains_id(previous, current[i]) {
            r.push(current[i]);
        }
        proof {
            assert(current@.take(i + 1).drop_last() =~= current@.take(i as int));
            assert(current@.take(i + 1).last() == current@[i as int]);
            assert(r@ =~= spec_not_in(current@.take(i + 1), previous@));
        }
    }
    proof {
        assert(current@.take(n as int) =~= current@);
    }
    r
}

/// The wire texts subscribing to each id in turn sends: a Subscribe and an
/// Announce per id.
pub open spec fn spec_subscribe_texts(ids: Seq<u64>) -> Seq<Seq<char>>
    decreases ids.len(),
{
    if ids.len() == 0 {
        Seq::empty()
    } else {
        spec_subscribe_texts(ids.drop_last()) + seq![
            spec_subscribe_message(ids.last()),
            spec_announce_message(ids.last()),
        ]
    }
}

/// The wire texts unsubscribing from each id in turn sends.
pub open spec fn spec_unsubscribe_texts(ids: Seq<u64>) -> Seq<Seq<char>>
    decreases ids.len(),
{
    if ids.len() == 0 {
        Seq::empty()
    } else {
        spec_unsubscribe_texts(ids.drop_last()).push(spec_unsubscribe_message(ids.last()))
    }
}

/// The texts of a list of wire messages.
pub open spec fn texts_view(v: Seq<String>) -> Seq<Seq<char>> {
    v.map_values(|s: String| s@)
}

/// The wire texts a settings save must send to keep the server's view of
/// the subscription set in step: a Subscribe and Announce pair for every
/// id the save adds, then an Unsubscribe for every id it removes.
pub open spec fn spec_sync_texts(previous: SettingsM, current: SettingsM) -> Seq<Seq<char>> {
    spec_subscribe_texts(spec_not_in(current.subscribed, previous.subscribed))
        + spec_unsubscribe_texts(spec_not_in(previous.subscribed, current.subscribed))
}

/// The messages that synchronise the server's subscription set after a
/// settings save, in sending order.
pub fn sync_messages(previous: &Settings, current: &Settings) -> (msgs: Vec<String>)
    ensures
        texts_view(msgs@) == spec_sync_texts(previous@, current@),
{
    let added = added_ids(&previous.subscribed, &current.subscribed);
    let removed = added_ids(&current.subscribed, &previous.subscribed);
    let mut msgs: Vec<String> = Vec::new();
    let na = added.len();
    for i in 0..na
        invariant
            na == added@.len(),
            added@ == spec_not_in(current@.subscribed, previous@.subscribed),
            texts_view(msgs@) =~= spec_subscribe_texts(added@.take(i as int)),
    {
        let ghost prev = msgs@;
        let mut pair = subscribe_to(added[i]);
        msgs.append(&mut pair);
        proof {
            assert(added@.take(i + 1).drop_last() =~= added@.take(i as int));
            assert(added@.take(i + 1).last() == added@[i as int]);
            assert(msgs@.len() == prev.len() + 2);
            assert(texts_view(msgs@) =~= spec_subscribe_texts(added@.take(i + 1)));
        }
    }
    proof {
        assert(added@.take(na as int) =~= added@);
    }
    let nr = removed.len();
    for i in 0..nr
        invariant
            nr == removed@.len(),
            added@ == spec_not_in(current@.subscribed, previous@.subscribed),
            removed@ == spec_not_in(previous@.subscribed, current@.subscribed),
            texts_view(msgs@) =~= spec_subscribe_texts(added@) + spec_unsubscribe_texts(
                removed@.take(i as int),
            ),
    {
        let ghost prev = msgs@;
        msgs.push(unsubscribe_from(removed[i]));
        proof {
            assert(removed@.take(i + 1).drop_last() =~= removed@.take(i as int));
            assert(removed@.take(i + 1).last() == removed@[i as int]);
            assert(spec_unsubscribe_texts(removed@.take(i + 1)) == spec_unsubscribe_texts(
                removed@.take(i as int),
            ).push(spec_unsubscribe_message(removed@[i as int])));
            assert(msgs@ == prev.push(msgs@[prev.len() as int]));
            assert(msgs@[prev.len() as int]@ == spec_unsubscribe_message(removed@[i as int]));
            let ghost target = spec_subscribe_texts(added@) + spec_unsubscribe_texts(
                removed@.take(i + 1),
            );
            assert(texts_view(prev).len() == prev.len());
            assert(target.len() == msgs@.len());
            assert forall|j: int| 0 <= j < msgs@.len() implies texts_view(msgs@)[j] == target[j] by {
                if j < prev.len() {
                    assert(texts_view(msgs@)[j] == texts_view(prev)[j]);
                } else {
                    assert(texts_view(msgs@)[j] == msgs@[prev.len() as int]@);
                }
            }
            assert(texts_view(msgs@) =~= target);
        }
    }
    proof {
        assert(removed@.take(nr as int) =~= removed@);
        assert(texts_view(msgs@) =~= spec_sync_texts(previous@, current@));
    }
    msgs
}

} // verus!
