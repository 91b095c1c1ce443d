//! A canvas: a membership list and an append-only log of drawn points.

use vstd::prelude::*;
use crate::point::Point;

verus! {

/// The ids of a member list, each as its sequence of characters.
pub open spec fn names_of(users: Seq<String>) -> Seq<Seq<char>> {
    users.map_values(|s: String| s@)
}

/// `users` with every occurrence of `u` removed, order otherwise kept.
pub open spec fn remove_all(users: Seq<Seq<char>>, u: Seq<char>) -> Seq<Seq<char>>
    decreases users.len(),
{
    if users.len() == 0 {
        Seq::empty()
    } else {
        let rest = remove_all(users.drop_last(), u);
        if users.last() == u {
            rest
        } else {
            rest.push(users.last())
        }
    }
}

/// The mathematical value of a canvas: the member ids (in insertion order,
/// each id a sequence of characters) and the append-only point log.
pub struct CanvasModel {
    pub users: Seq<Seq<char>>,
    pub points: Seq<Point>,
}

impl CanvasModel {
    /// Whether `u` is a member of this canvas.
    pub open spec fn has_user(self, u: Seq<char>) -> bool {
        self.users.contains(u)
    }

    /// The canvas after inviting `u`: membership gains `u` unless it is
    /// already present; the point log is untouched.
    pub open spec fn with_user(self, u: Seq<char>) -> CanvasModel {
        if self.users.contains(u) {
            self
        } else {
            CanvasModel { users: self.users.push(u), points: self.points }
        }
    }

    /// The canvas after removing `u`: every occurrence of `u` leaves the
    /// membership list; the point log is untouched.
    pub open spec fn without_user(self, u: Seq<char>) -> CanvasModel {
        CanvasModel { users: remove_all(self.users, u), points: self.points }
    }

    /// The canvas after drawing `p`: the point is appended to the log;
    /// membership is untouched.
    pub open spec fn with_point(self, p: Point) -> CanvasModel {
        CanvasModel { users: self.users, points: self.points.push(p) }
    }
}

/// One canvas as held in a node's store. `users` is kept duplicate-free by
/// the protocol handlers; `points` is append-only.
pub struct Canvas {
    pub users: Vec<String>,
    pub points: Vec<Point>,
}

impl View for Canvas {
    type V = CanvasModel;

    open spec fn view(&self) -> CanvasModel {
        CanvasModel { users: names_of(self.users@), points: self.points@ }
    }
}

impl Canvas {
    /// The canvas a node creates for itself at startup: the owner is the
    /// sole initial member and no point has been drawn.
    pub fn owned_by(owner: &String) -> (c: Canvas)
        ensures
            c@.users == seq![owner@],
            c@.points == Seq::<Point>::empty(),
    {
        let mut users: Vec<String> = Vec::new();
        users.push(owner.clone());
        let c = Canvas { users, points: Vec::new() };
        proof {
            assert(c@.users =~= seq![owner@]);
            assert(c@.points =~= Seq::<Point>::empty());
        }
        c
    }

    /// Whether `user` is currently a member.
    pub fn has_user(&self, user: &String) -> (b: bool)
        ensures
            b == self@.has_user(user@),
    {
        let mut i: usize = 0;
        while i < self.users.len()
            invariant
                i <= self.users.len(),
                forall|j: int| 0 <= j < i ==> self.users@[j]@ != user@,
            decreases self.users.len() - i,
        {
            if self.users[i] == *user {
                proof {
                    assert(self@.users[i as int] == user@);
                }
                return true;
            }
            i += 1;
        }
        proof {
            assert forall|j: int| 0 <= j < self@.users.len() implies self@.users[j] != user@ by {
                assert(self@.users[j] == self.users@[j]@);
            }
        }
        false
    }

    /// Invite `user`: appended to the membership list unless already present.
    pub fn add_user(&mut self, user: String)
        ensures
            final(self)@ == old(self)@.with_user(user@),
    {
        if !self.has_user(&user) {
            let ghost pre = self@;
            self.users.push(user);
            proof {
                assert(self@.users =~= pre.users.push(user@));
                assert(self@ == pre.with_user(user@));
            }
        }
    }

    /// Remove `user`: every occurrence leaves the membership list.
    pub fn remove_user(&mut self, user: &String)
        ensures
            final(self)@ == old(self)@.without_user(user@),
    {
        let mut kept: Vec<String> = Vec::new();
        let mut i: usize = 0;
        proof {
            assert(names_of(self.users@.subrange(0, 0)) =~= Seq::<Seq<char>>::empty());
            assert(names_of(kept@) =~= Seq::<Seq<char>>::empty());
        }
        while i < self.users.len()
            invariant
                i <= self.users.len(),
                names_of(kept@) == remove_all(names_of(self.users@.subrange(0, i as int)), user@),
            decreases self.users.len() - i,
        {
            let ghost prefix = names_of(self.users@.subrange(0, i as int));
            let ghost kept_pre = names_of(kept@);
            if !(self.users[i] == *user) {
                kept.push(self.users[i].clone());
                proof {
                    assert(names_of(kept@) =~= kept_pre.push(self.users@[i as int]@));
                }
            }
            i += 1;
            proof {
                let longer = names_of(self.users@.subrange(0, i as int));
                assert(longer.drop_last() =~= prefix);
                assert(longer.last() == self.users@[i - 1]@);
                assert(remove_all(longer, user@) == if longer.last() == user@ {
                    remove_all(longer.drop_last(), user@)
                } else {
                    remove_all(longer.drop_last(), user@).push(longer.last())
                });
                assert(names_of(kept@) == remove_all(longer, user@));
            }
        }
        self.users = kept;
        proof {
            assert(names_of(old(self).users@.subrange(0, old(self).users@.len() as int)) =~= names_of(
                old(self).users@,
            ));
            assert(self@ == old(self)@.without_user(user@));
        }
    }

    /// Draw `p`: appended to the point log.
    pub fn push_point(&mut self, p: Point)
        ensures
            final(self)@ == old(self)@.with_point(p),
    {
        self.points.push(p);
        proof {
            assert(self@ == old(self)@.with_point(p));
        }
    }

    /// A deep copy with the same members and the same points.
    pub fn duplicate(&self) -> (c: Canvas)
        ensures
            c@ == self@,
    {
        let mut users: Vec<String> = Vec::new();
        let mut i: usize = 0;
        while i < self.users.len()
            invariant
                i <= self.users.len(),
                users@.len() == i,
                forall|j: int| 0 <= j < i ==> users@[j]@ == self.users@[j]@,
            decreases self.users.len() - i,
        {
            users.push(self.users[i].clone());
            i += 1;
        }
        let mut points: Vec<Point> = Vec::new();
        let mut k: usize = 0;
        while k < self.points.len()
            invariant
                k <= self.points.len(),
                points@ == self.points@.subrange(0, k as int),
            decreases self.points.len() - k,
        {
            points.push(self.points[k]);
            k += 1;
            proof {
                assert(points@ =~= self.points@.subrange(0, k as int));
            }
        }
        let c = Canvas { users, points };
        proof {
            assert(self.points@.subrange(0, self.points@.len() as int) =~= self.points@);
            assert(c@.users =~= self@.users);
            assert(c@ == self@);
        }
        c
    }
}

} // verus!
