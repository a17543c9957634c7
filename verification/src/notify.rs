//! The notification service: the table of live notification records
//! and the monotonic id allocator behind the `notify` / close calls
//! of the notification bus protocol.

use vstd::prelude::*;

verus! {

/// Reason code sent with a closed signal: the record's timeout ran out.
pub const REASON_EXPIRED: u32 = 1;

/// Reason code sent with a closed signal: the user dismissed the popup.
pub const REASON_DISMISSED: u32 = 2;

/// Reason code sent with a closed signal: a close call named the record.
pub const REASON_CLOSED_BY_CALL: u32 = 3;

/// Reason code sent with a closed signal: none of the other reasons holds.
pub const REASON_UNDEFINED: u32 = 4;

/// One live notification: its identity and the content to render.
pub struct NotificationRecord {
    pub id: u32,
    pub app_name: String,
    pub app_icon: String,
    pub summary: String,
    pub body: String,
    pub actions: Vec<String>,
    pub hints: Vec<(String, String)>,
    pub expire_timeout: i32,
}

/// The data of one outbound `notification_closed` signal.
#[derive(Clone, Copy, PartialEq, Eq, Structural, Debug)]
pub struct ClosedSignal {
    pub id: u32,
    pub reason: u32,
}

/// Some record in `s` carries the id `id`.
pub open spec fn has_id(s: Seq<NotificationRecord>, id: u32) -> bool {
    exists|i: int| 0 <= i < s.len() && s[i].id == id
}

/// The index of the record carrying `id`; meaningful only where the
/// ids of `s` are unique and `has_id(s, id)` holds.
pub open spec fn index_of_id(s: Seq<NotificationRecord>, id: u32) -> int {
    choose|i: int| 0 <= i < s.len() && s[i].id == id
}

/// The id a notify call hands out: a fresh one from the counter, or
/// the caller's own when it replaces an existing record.
pub open spec fn spec_effective_id(next_id: u32, replaces_id: u32) -> u32 {
    if replaces_id == 0 {
        next_id
    } else {
        replaces_id
    }
}

/// The counter after one fresh allocation: it wraps at the integer width.
pub open spec fn spec_next_counter(next_id: u32) -> u32 {
    if next_id == u32::MAX {
        0
    } else {
        (next_id + 1) as u32
    }
}

/// The ids handed out by `n` fresh allocations starting at `next_id`.
pub open spec fn fresh_ids(next_id: u32, n: nat) -> Seq<u32>
    decreases n,
{
    if n == 0 {
        Seq::empty()
    } else {
        seq![spec_effective_id(next_id, 0)] + fresh_ids(spec_next_counter(next_id), (n - 1) as nat)
    }
}

/// The IPC-facing notification service: the id counter and the table
/// of live records.
pub struct NotificationServer {
    /// The next fresh id; starts at 1 and wraps at the integer width.
    pub next_id: u32,
    /// The live records, at most one per id.
    pub records: Vec<NotificationRecord>,
}

impl NotificationServer {
    /// Well-formed: no two live records share an id.
    pub open spec fn wf(self) -> bool {
        forall|i: int, j: int|
            0 <= i < j < self.records@.len() ==> self.records@[i].id != self.records@[j].id
    }

    /// A fresh service: the counter starts at 1, no record is live.
    pub fn new() -> (s: NotificationServer)
        ensures
            s.wf(),
            s.next_id == 1,
            s.records@ =~= Seq::<NotificationRecord>::empty(),
    {
        NotificationServer { next_id: 1, records: Vec::new() }
    }

    /// The index of the record carrying `id`, if one is live.
    fn position_of(&self, id: u32) -> (r: Option<usize>)
        requires
            self.wf(),
        ensures
            match r {
                Some(i) => has_id(self.records@, id) && i == index_of_id(self.records@, id)
                    && 0 <= i < self.records@.len() && self.records@[i as int].id == id,
                None => !has_id(self.records@, id),
            },
    {
        let n = self.records.len();
        let mut i: usize = 0;
        while i < n
            invariant
                self.wf(),
                n == self.records@.len(),
                0 <= i <= n,
                forall|j: int| 0 <= j < i ==> self.records@[j].id != id,
            decreases n - i,
        {
            if self.records[i].id == id {
                proof {
                    let k = index_of_id(self.records@, id);
                    assert(0 <= k < self.records@.len() && self.records@[k].id == id);
                    assert(k == i);
                }
                return Some(i);
            }
            i = i + 1;
        }
        None
    }

    /// Serve one notify call: allocate a fresh id when `replaces_id`
    /// is zero, else reuse the caller's id; store the record, replacing
    /// the live one with that id if there is one; return the id.
    pub fn notify(
        &mut self,
        app_name: String,
        replaces_id: u32,
        app_icon: String,
        summary: String,
        body: String,
        actions: Vec<String>,
        hints: Vec<(String, String)>,
        expire_timeout: i32,
    ) -> (id: u32)
        requires
            old(self).wf(),
        ensures
            final(self).wf(),
            id == spec_effective_id(old(self).next_id, replaces_id),
            final(self).next_id == if replaces_id == 0 {
                spec_next_counter(old(self).next_id)
            } else {
                old(self).next_id
            },
            ({
                let rec = (NotificationRecord {
                    id,
                    app_name,
                    app_icon,
                    summary,
                    body,
                    actions,
                    hints,
                    expire_timeout,
                });
                if has_id(old(self).records@, id) {
                    final(self).records@ == old(self).records@.update(
                        index_of_id(old(self).records@, id),
                        rec,
                    )
                } else {
                    final(self).records@ == old(self).records@.push(rec)
                }
            }),
    {
        let id = if replaces_id == 0 {
            let fresh = self.next_id;
            self.next_id = if self.next_id == u32::MAX {
                0
            } else {
                self.next_id + 1
            };
            fresh
        } else {
            replaces_id
        };
        let rec = NotificationRecord {
            id,
            app_name,
            app_icon,
            summary,
            body,
            actions,
            hints,
            expire_timeout,
        };
        match self.position_of(id) {
            Some(i) => {
                self.records[i] = rec;
            },
            None => {
                self.records.push(rec);
            },
        }
        id
    }

    /// Remove the record carrying `id`, if one is live, and say which
    /// closed signal the caller must emit for it; `None` where no
    /// record carries `id`.
    pub fn remove_notification(&mut self, id: u32, reason: u32) -> (r: Option<ClosedSignal>)
        requires
            old(self).wf(),
        ensures
            final(self).wf(),
            final(self).next_id == old(self).next_id,
            if has_id(old(self).records@, id) {
                r == Some(ClosedSignal { id, reason })
                    && final(self).records@
                    == old(self).records@.remove(index_of_id(old(self).records@, id))
            } else {
                r is None && final(self).records@ == old(self).records@
            },
    {
        match self.position_of(id) {
            Some(i) => {
                self.records.remove(i);
                Some(ClosedSignal { id, reason })
            },
            None => None,
        }
    }

    /// Serve one close call: remove the record and name the signal to
    /// emit, with the closed-by-call reason code.
    pub fn close_notification(&mut self, id: u32) -> (r: Option<ClosedSignal>)
        requires
            old(self).wf(),
        ensures
            final(self).wf(),
            final(self).next_id == old(self).next_id,
            if has_id(old(self).records@, id) {
                r == Some(ClosedSignal { id, reason: REASON_CLOSED_BY_CALL })
                    && final(self).records@
                    == old(self).records@.remove(index_of_id(old(self).records@, id))
            } else {
                r is None && final(self).records@ == old(self).records@
            },
    {
        self.remove_notification(id, REASON_CLOSED_BY_CALL)
    }

    /// The advertised feature set of this service.
    pub fn get_capabilities(&self) -> (caps: Vec<String>)
        ensures
            caps@.len() == 1,
            caps@[0]@ == "body"@,
    {
        let mut caps: Vec<String> = Vec::new();
        caps.push("body".to_string());
        caps
    }

    /// The identity tuple of this service: name, vendor, version, and
    /// the protocol version it speaks.
    pub fn get_server_information(&self) -> (info: (String, String, String, String))
        ensures
            info.0@ == "uwu-notify"@,
            info.1@ == "uwu"@,
            info.2@ == "0.1.0"@,
            info.3@ == "1.2"@,
    {
        (
            "uwu-notify".to_string(),
            "uwu".to_string(),
            "0.1.0".to_string(),
            "1.2".to_string(),
        )
    }

    /// The record carrying `id`, if one is live.
    pub fn get_record(&self, id: u32) -> (r: Option<&NotificationRecord>)
        requires
            self.wf(),
        ensures
            r is Some <==> has_id(self.records@, id),
            r matches Some(rec) ==> *rec == self.records@[index_of_id(self.records@, id)],
    {
        match self.position_of(id) {
            Some(i) => Some(&self.records[i]),
            None => None,
        }
    }
}

/// Each of `n` fresh allocations hands out the start counter advanced
/// by the allocation's place in the run, as long as the run stays
/// within the counter width.
proof fn lemma_fresh_ids_are_offsets(next_id: u32, n: nat)
    requires
        next_id as int + n <= u32::MAX as int + 1,
    ensures
        fresh_ids(next_id, n).len() == n,
        forall|i: int| 0 <= i < n ==> fresh_ids(next_id, n)[i] == next_id + i,
    decreases n,
{
    if n > 0 {
        lemma_fresh_ids_are_offsets(spec_next_counter(next_id), (n - 1) as nat);
        assert forall|i: int| 0 <= i < n implies fresh_ids(next_id, n)[i] == next_id + i by {
            if i > 0 {
                let rest = fresh_ids(spec_next_counter(next_id), (n - 1) as nat);
                assert(fresh_ids(next_id, n)[i] == rest[i - 1]);
            }
        }
    }
}

/// Over any run of notify calls that all ask for a fresh id and stay
/// within the counter width, the ids handed out are strictly
/// increasing, and so unique.
pub proof fn lemma_fresh_ids_strictly_increasing(next_id: u32, n: nat)
    requires
        next_id as int + n <= u32::MAX as int + 1,
    ensures
        fresh_ids(next_id, n).len() == n,
        forall|i: int, j: int|
            0 <= i < j < n ==> fresh_ids(next_id, n)[i] < fresh_ids(next_id, n)[j],
{
    lemma_fresh_ids_are_offsets(next_id, n);
}

/// A notify call that replaces a live record keeps the table's length:
/// the content is replaced, never duplicated.
pub proof fn lemma_replace_keeps_length(s: Seq<NotificationRecord>, rec: NotificationRecord)
    requires
        has_id(s, rec.id),
    ensures
        s.update(index_of_id(s, rec.id), rec).len() == s.len(),
{
}

} // verus!
