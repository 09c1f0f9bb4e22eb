//! The command mailbox: the ordered channel that carries commands from the
//! facade to the playback worker.

use crate::command::{Cmd, Command};
use vstd::prelude::*;

verus! {

/// A first-in-first-out command queue.  `send` appends and never blocks or
/// drops; `recv` removes from the front; so the worker observes commands
/// exactly in send order.
pub struct Mailbox {
    items: Vec<Command>,
}

impl View for Mailbox {
    type V = Seq<Cmd>;

    closed spec fn view(&self) -> Seq<Cmd> {
        self.items@.map_values(|c: Command| c@)
    }
}

impl Mailbox {
    /// An empty mailbox.
    pub fn new() -> (m: Mailbox)
        ensures
            m@ == Seq::<Cmd>::empty(),
    {
        let m = Mailbox { items: Vec::new() };
        proof {
            assert(m@ =~= Seq::<Cmd>::empty());
        }
        m
    }

    /// How many commands are waiting.
    pub fn len(&self) -> (n: usize)
        ensures
            n == self@.len(),
    {
        self.items.len()
    }

    /// Appends one command at the back of the queue.
    pub fn send(&mut self, cmd: Command)
        ensures
            final(self)@ == old(self)@.push(cmd@),
    {
        let ghost c = cmd@;
        self.items.push(cmd);
        proof {
            assert(self@ =~= old(self)@.push(c));
        }
    }

    /// Takes the oldest command, or nothing when the queue is empty.
    pub fn recv(&mut self) -> (r: Option<Command>)
        ensures
            old(self)@.len() == 0 ==> r is None && final(self)@ == old(self)@,
            old(self)@.len() > 0 ==> {
                &&& r matches Some(c) && c@ == old(self)@[0]
                &&& final(self)@ == old(self)@.drop_first()
            },
    {
        if self.items.len() == 0 {
            None
        } else {
            let c = self.items.remove(0);
            proof {
                assert(self@ =~= old(self)@.drop_first());
            }
            Some(c)
        }
    }
}

/// Command ordering law: the mailbox delivers commands in send order.  After
/// a queue `q` receives `c1` and then `c2`, every command already in `q`
/// stands before both, and `c1` stands immediately before `c2`; since
/// receives take the front, `c1` is delivered before `c2`, never the other
/// way round.
pub proof fn lemma_send_order(q: Seq<Cmd>, c1: Cmd, c2: Cmd)
    ensures
        ({
            let q2 = q.push(c1).push(c2);
            &&& q2.len() == q.len() + 2
            &&& q2[q.len() as int] == c1
            &&& q2[q.len() as int + 1] == c2
            &&& forall|i: int| 0 <= i < q.len() ==> q2[i] == q[i]
        }),
{
}

} // verus!
