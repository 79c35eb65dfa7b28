//! Notification listener logic: which channels a subscription covers,
//! and what is delivered for each inbound event.
//!
//! The subscription connection, its reconnection on loss and the
//! long-running receive loop belong to the boundary adapter; this
//! module decides. An event on a subscribed channel becomes a one-row
//! event record for the notify callback; an event on any other channel
//! is not delivered.

use crate::result::QueryResult;
use crate::text::str_eq;
use crate::translate::notification_result_of;
use crate::translate::spec_notification_shape;
use vstd::prelude::*;

verus! {

/// One step of splitting a comma-separated list: `cur` is the segment
/// being read, `acc` the finished segments.
pub open spec fn spec_split_step(s: Seq<char>, cur: Seq<char>, acc: Seq<Seq<char>>) -> Seq<
    Seq<char>,
>
    decreases s.len(),
{
    if s.len() == 0 {
        acc.push(cur)
    } else if s[0] == ',' {
        spec_split_step(s.skip(1), Seq::empty(), acc.push(cur))
    } else {
        spec_split_step(s.skip(1), cur.push(s[0]), acc)
    }
}

/// The segments of a comma-separated list, in order; an empty list is
/// one empty segment, and empty segments are kept.
pub open spec fn spec_split_channels(s: Seq<char>) -> Seq<Seq<char>> {
    spec_split_step(s, Seq::empty(), Seq::empty())
}

/// Splits the comma-separated channel list of a listen request.
pub fn parse_channels(csv: &str) -> (r: Vec<String>)
    ensures
        r.deep_view() == spec_split_channels(csv@),
{
    let len = csv.unicode_len();
    let mut out: Vec<String> = Vec::new();
    let mut start: usize = 0;
    let mut i: usize = 0;
    proof {
        assert(csv@.skip(0) =~= csv@);
        assert(csv@.subrange(0, 0) =~= Seq::<char>::empty());
        assert(out.deep_view() =~= Seq::<Seq<char>>::empty());
    }
    while i < len
        invariant
            len == csv@.len(),
            start <= i <= len,
            spec_split_channels(csv@) == spec_split_step(
                csv@.skip(i as int),
                csv@.subrange(start as int, i as int),
                out.deep_view(),
            ),
        decreases len - i,
    {
        let c = csv.get_char(i);
        proof {
            assert(csv@.skip(i as int)[0] == csv@[i as int]);
            assert(csv@.skip(i as int).skip(1) =~= csv@.skip(i + 1));
        }
        if c == ',' {
            let segment = csv.substring_char(start, i);
            let ghost prev = out.deep_view();
            out.push(segment.to_owned());
            proof {
                assert(out.deep_view() =~= prev.push(csv@.subrange(start as int, i as int)));
            }
            start = i + 1;
            proof {
                assert(csv@.subrange(start as int, i + 1) =~= Seq::<char>::empty());
            }
        } else {
            proof {
                assert(csv@.subrange(start as int, i + 1) =~= csv@.subrange(
                    start as int,
                    i as int,
                ).push(csv@[i as int]));
            }
        }
        i = i + 1;
    }
    let last = csv.substring_char(start, len);
    out.push(last.to_owned());
    proof {
        assert(csv@.skip(len as int) =~= Seq::<char>::empty());
    }
    out
}

/// An active subscription: the channels events are delivered for.
pub struct Subscription {
    channels: Vec<String>,
}

impl Subscription {
    /// The subscribed channel names, in subscription order.
    pub closed spec fn channels_view(self) -> Seq<Seq<char>> {
        self.channels.deep_view()
    }

    /// Whether events on a channel are delivered.
    pub open spec fn subscribed(self, channel: Seq<char>) -> bool {
        self.channels_view().contains(channel)
    }

    /// Subscribes to every channel of a comma-separated list.
    pub fn of_csv(csv: &str) -> (r: Subscription)
        ensures
            r.channels_view() == spec_split_channels(csv@),
    {
        Subscription { channels: parse_channels(csv) }
    }

    /// Whether the subscription covers a channel.
    pub fn covers(&self, channel: &str) -> (r: bool)
        ensures
            r == self.subscribed(channel@),
    {
        let n = self.channels.len();
        let mut i: usize = 0;
        while i < n
            invariant
                i <= n,
                n == self.channels@.len(),
                self.channels_view().len() == n,
                forall|j: int| 0 <= j < i ==> self.channels_view()[j] != channel@,
            decreases n - i,
        {
            if str_eq(self.channels[i].as_str(), channel) {
                assert(self.channels_view()[i as int] == channel@);
                return true;
            }
            i = i + 1;
        }
        false
    }

    /// Decides one inbound event: an event on a subscribed channel is
    /// delivered as a one-row event record carrying the channel name and
    /// payload; an event on any other channel is not delivered.
    pub fn on_event(&self, channel: &str, payload: &str) -> (r: Option<QueryResult>)
        ensures
            r is Some <==> self.subscribed(channel@),
            r is Some ==> spec_notification_shape(r->Some_0, channel@, payload@),
    {
        if self.covers(channel) {
            Option::Some(notification_result_of(channel, payload))
        } else {
            Option::None
        }
    }
}

} // verus!
