//! The follower table and the cache of known remote actors, as rows in
//! memory: the state that the follow handshake changes and that delivery
//! reads.

use crate::activitypub::objects::actor::{Actor, ActorView};
use crate::text::same_text;
use vstd::prelude::*;
use vstd::string::*;

verus! {

/// What is remembered of a remote actor.
#[derive(Debug)]
pub struct KnownActor {
    pub actor_id: String,
    pub name: String,
    pub preferred_username: String,
    pub url: String,
    pub inbox: String,
    pub outbox: String,
}

/// What a known actor holds.
pub struct KnownActorView {
    pub actor_id: Seq<char>,
    pub name: Seq<char>,
    pub preferred_username: Seq<char>,
    pub url: Seq<char>,
    pub inbox: Seq<char>,
    pub outbox: Seq<char>,
}

impl View for KnownActor {
    type V = KnownActorView;

    open spec fn view(&self) -> KnownActorView {
        KnownActorView {
            actor_id: self.actor_id@,
            name: self.name@,
            preferred_username: self.preferred_username@,
            url: self.url@,
            inbox: self.inbox@,
            outbox: self.outbox@,
        }
    }
}

/// What is remembered of an actor whose document was fetched.
pub open spec fn known_of_actor(actor: ActorView) -> KnownActorView {
    KnownActorView {
        actor_id: actor.id,
        name: actor.name,
        preferred_username: actor.preferred_username,
        url: actor.url,
        inbox: actor.inbox,
        outbox: actor.outbox,
    }
}

impl KnownActor {
    /// What is remembered of an actor whose document was fetched.
    pub fn from_actor(actor: &Actor) -> (known: KnownActor)
        ensures
            known@ == known_of_actor(actor@),
    {
        KnownActor {
            actor_id: actor.id.clone(),
            name: actor.name.clone(),
            preferred_username: actor.preferred_username.clone(),
            url: actor.url.clone(),
            inbox: actor.inbox.clone(),
            outbox: actor.outbox.clone(),
        }
    }

    /// A copy of this row.
    pub fn duplicate(&self) -> (known: KnownActor)
        ensures
            known@ == self@,
    {
        KnownActor {
            actor_id: self.actor_id.clone(),
            name: self.name.clone(),
            preferred_username: self.preferred_username.clone(),
            url: self.url.clone(),
            inbox: self.inbox.clone(),
            outbox: self.outbox.clone(),
        }
    }
}

/// A remote actor following a local profile.
#[derive(Debug)]
pub struct FollowerEdge {
    pub profile_id: i64,
    pub actor_id: String,
}

/// A follower edge as a pair: the profile's id and the actor's.
pub type Edge = (int, Seq<char>);

impl View for FollowerEdge {
    type V = Edge;

    open spec fn view(&self) -> Edge {
        (self.profile_id as int, self.actor_id@)
    }
}

/// The edges of a list of rows.
pub open spec fn edges(rows: Seq<FollowerEdge>) -> Seq<Edge> {
    rows.map_values(|r: FollowerEdge| r@)
}

/// The known actors of a list of rows.
pub open spec fn actors(rows: Seq<KnownActor>) -> Seq<KnownActorView> {
    rows.map_values(|r: KnownActor| r@)
}

/// How often an edge occurs among the rows.
pub open spec fn count_edge(rows: Seq<Edge>, e: Edge) -> nat
    decreases rows.len(),
{
    if rows.len() == 0 {
        0
    } else {
        count_edge(rows.drop_last(), e) + if rows.last() == e {
            1nat
        } else {
            0nat
        }
    }
}

/// Whether no edge occurs twice.
pub open spec fn edges_unique(rows: Seq<Edge>) -> bool {
    forall|e: Edge| count_edge(rows, e) <= 1
}

/// The rows once the edge is recorded: unchanged where it is there
/// already, else with the edge at the end.
pub open spec fn with_edge(rows: Seq<Edge>, e: Edge) -> Seq<Edge> {
    if rows.contains(e) {
        rows
    } else {
        rows.push(e)
    }
}

/// The rows once the edge is deleted: the others, in their order.
pub open spec fn without_edge(rows: Seq<Edge>, e: Edge) -> Seq<Edge>
    decreases rows.len(),
{
    if rows.len() == 0 {
        rows
    } else if rows.last() == e {
        without_edge(rows.drop_last(), e)
    } else {
        without_edge(rows.drop_last(), e).push(rows.last())
    }
}

/// How often an actor id occurs among the rows.
pub open spec fn count_actor(rows: Seq<KnownActorView>, id: Seq<char>) -> nat
    decreases rows.len(),
{
    if rows.len() == 0 {
        0
    } else {
        count_actor(rows.drop_last(), id) + if rows.last().actor_id == id {
            1nat
        } else {
            0nat
        }
    }
}

/// Whether no actor id occurs twice.
pub open spec fn actors_unique(rows: Seq<KnownActorView>) -> bool {
    forall|id: Seq<char>| count_actor(rows, id) <= 1
}

/// The rows without the actor of the given id.
pub open spec fn without_actor(rows: Seq<KnownActorView>, id: Seq<char>) -> Seq<KnownActorView>
    decreases rows.len(),
{
    if rows.len() == 0 {
        rows
    } else if rows.last().actor_id == id {
        without_actor(rows.drop_last(), id)
    } else {
        without_actor(rows.drop_last(), id).push(rows.last())
    }
}

/// The rows once the actor is recorded: any row of the same id gives way,
/// and the actor stands at the end.
pub open spec fn with_actor(rows: Seq<KnownActorView>, actor: KnownActorView) -> Seq<
    KnownActorView,
> {
    without_actor(rows, actor.actor_id).push(actor)
}

/// The row of the actor with the given id: the last one that has it.
pub open spec fn find_actor(rows: Seq<KnownActorView>, id: Seq<char>) -> Option<KnownActorView>
    decreases rows.len(),
{
    if rows.len() == 0 {
        None
    } else if rows.last().actor_id == id {
        Some(rows.last())
    } else {
        find_actor(rows.drop_last(), id)
    }
}

/// The inboxes that a post of `profile_id` goes to: for each follower edge
/// of the profile, in order, the inbox of the follower where it is known.
pub open spec fn follower_inboxes(
    followers: Seq<Edge>,
    known: Seq<KnownActorView>,
    profile_id: int,
) -> Seq<Seq<char>>
    decreases followers.len(),
{
    if followers.len() == 0 {
        Seq::empty()
    } else {
        let before = follower_inboxes(followers.drop_last(), known, profile_id);
        let edge = followers.last();
        if edge.0 == profile_id {
            match find_actor(known, edge.1) {
                Some(actor) => before.push(actor.inbox),
                None => before,
            }
        } else {
            before
        }
    }
}

/// An edge occurs among the rows exactly when its count is not zero.
pub proof fn lemma_count_edge_contains(rows: Seq<Edge>, e: Edge)
    ensures
        rows.contains(e) <==> count_edge(rows, e) > 0,
    decreases rows.len(),
{
    if rows.len() > 0 {
        let front = rows.drop_last();
        lemma_count_edge_contains(front, e);
        if front.contains(e) {
            let i = choose|i: int| 0 <= i < front.len() && front[i] == e;
            assert(rows[i] == e);
        }
        if rows.contains(e) && rows.last() != e {
            let i = choose|i: int| 0 <= i < rows.len() && rows[i] == e;
            assert(front[i] == e);
        }
        if rows.last() == e {
            assert(rows[rows.len() - 1] == e);
        }
    }
}

/// Recording an edge raises its count from zero to one and changes no other
/// count.
pub proof fn lemma_count_with_edge(rows: Seq<Edge>, e: Edge, x: Edge)
    ensures
        count_edge(with_edge(rows, e), x) == if x == e && !rows.contains(e) {
            count_edge(rows, x) + 1
        } else {
            count_edge(rows, x)
        },
{
    if !rows.contains(e) {
        assert(rows.push(e).drop_last() =~= rows);
    }
}

/// Deleting an edge brings its count to zero and changes no other count.
pub proof fn lemma_count_without_edge(rows: Seq<Edge>, e: Edge, x: Edge)
    ensures
        count_edge(without_edge(rows, e), x) == if x == e {
            0
        } else {
            count_edge(rows, x)
        },
    decreases rows.len(),
{
    if rows.len() > 0 {
        lemma_count_without_edge(rows.drop_last(), e, x);
        if rows.last() != e {
            assert(without_edge(rows.drop_last(), e).push(rows.last()).drop_last()
                =~= without_edge(rows.drop_last(), e));
        }
    }
}

/// A follow that is processed twice leaves the rows as one processing
/// does, with exactly one edge for the pair.
pub proof fn lemma_follow_twice_leaves_one_edge(rows: Seq<Edge>, e: Edge)
    requires
        edges_unique(rows),
    ensures
        with_edge(with_edge(rows, e), e) == with_edge(rows, e),
        count_edge(with_edge(with_edge(rows, e), e), e) == 1,
        edges_unique(with_edge(with_edge(rows, e), e)),
{
    let once = with_edge(rows, e);
    assert(once.contains(e)) by {
        if !rows.contains(e) {
            assert(once[once.len() - 1] == e);
        }
    }
    lemma_count_with_edge(rows, e, e);
    lemma_count_edge_contains(rows, e);
    assert forall|x: Edge| count_edge(once, x) <= 1 by {
        lemma_count_with_edge(rows, e, x);
        lemma_count_edge_contains(rows, x);
    }
}

/// Undoing a follow that was never recorded changes nothing.
pub proof fn lemma_undo_of_absent_edge_changes_nothing(rows: Seq<Edge>, e: Edge)
    requires
        !rows.contains(e),
    ensures
        without_edge(rows, e) == rows,
    decreases rows.len(),
{
    if rows.len() > 0 {
        let front = rows.drop_last();
        assert(!front.contains(e)) by {
            if front.contains(e) {
                let i = choose|i: int| 0 <= i < front.len() && front[i] == e;
                assert(rows[i] == e);
            }
        }
        assert(rows.last() != e) by {
            assert(rows[rows.len() - 1] == rows.last());
        }
        lemma_undo_of_absent_edge_changes_nothing(front, e);
        assert(front.push(rows.last()) =~= rows);
    }
}

/// The handshake for one pair has two states, and each activity decides
/// the state whatever it was: after a follow the edge is there, after an
/// undo it is not, and no other pair is touched by either.
pub proof fn lemma_follow_state_machine(rows: Seq<Edge>, e: Edge, other: Edge)
    requires
        other != e,
    ensures
        with_edge(rows, e).contains(e),
        !without_edge(rows, e).contains(e),
        with_edge(rows, e).contains(other) == rows.contains(other),
        without_edge(rows, e).contains(other) == rows.contains(other),
        edges_unique(rows) ==> edges_unique(with_edge(rows, e)) && edges_unique(
            without_edge(rows, e),
        ),
{
    lemma_count_with_edge(rows, e, e);
    lemma_count_with_edge(rows, e, other);
    lemma_count_without_edge(rows, e, e);
    lemma_count_without_edge(rows, e, other);
    lemma_count_edge_contains(rows, e);
    lemma_count_edge_contains(rows, other);
    lemma_count_edge_contains(with_edge(rows, e), e);
    lemma_count_edge_contains(with_edge(rows, e), other);
    lemma_count_edge_contains(without_edge(rows, e), e);
    lemma_count_edge_contains(without_edge(rows, e), other);
    if edges_unique(rows) {
        assert forall|x: Edge| count_edge(with_edge(rows, e), x) <= 1 by {
            lemma_count_with_edge(rows, e, x);
            lemma_count_edge_contains(rows, x);
        }
        assert forall|x: Edge| count_edge(without_edge(rows, e), x) <= 1 by {
            lemma_count_without_edge(rows, e, x);
        }
    }
}

/// Recording an actor leaves exactly one row of its id and changes no other
/// count.
pub proof fn lemma_count_with_actor(rows: Seq<KnownActorView>, actor: KnownActorView, id: Seq<char>)
    ensures
        count_actor(with_actor(rows, actor), id) == if id == actor.actor_id {
            1
        } else {
            count_actor(rows, id)
        },
{
    lemma_count_without_actor(rows, actor.actor_id, id);
    assert(with_actor(rows, actor).drop_last() =~= without_actor(rows, actor.actor_id));
}

/// Dropping an actor brings the count of its id to zero and changes no
/// other count.
pub proof fn lemma_count_without_actor(rows: Seq<KnownActorView>, gone: Seq<char>, id: Seq<char>)
    ensures
        count_actor(without_actor(rows, gone), id) == if id == gone {
            0
        } else {
            count_actor(rows, id)
        },
    decreases rows.len(),
{
    if rows.len() > 0 {
        lemma_count_without_actor(rows.drop_last(), gone, id);
        if rows.last().actor_id != gone {
            assert(without_actor(rows.drop_last(), gone).push(rows.last()).drop_last()
                =~= without_actor(rows.drop_last(), gone));
        }
    }
}

/// Dropping an actor from rows that end with it drops that last row too.
pub proof fn lemma_without_recorded_actor(rows: Seq<KnownActorView>, actor: KnownActorView)
    ensures
        without_actor(with_actor(rows, actor), actor.actor_id) == without_actor(
            rows,
            actor.actor_id,
        ),
{
    let id = actor.actor_id;
    let once = with_actor(rows, actor);
    assert(once.drop_last() =~= without_actor(rows, id));
    lemma_without_actor_twice(rows, id);
}

/// Dropping an actor twice is dropping it once.
pub proof fn lemma_without_actor_twice(rows: Seq<KnownActorView>, id: Seq<char>)
    ensures
        without_actor(without_actor(rows, id), id) == without_actor(rows, id),
    decreases rows.len(),
{
    if rows.len() > 0 {
        let front = rows.drop_last();
        lemma_without_actor_twice(front, id);
        if rows.last().actor_id != id {
            let kept = without_actor(front, id).push(rows.last());
            assert(kept.drop_last() =~= without_actor(front, id));
        }
    }
}

/// Recording the same actor twice leaves the rows as recording it once
/// does.
pub proof fn lemma_actor_recorded_twice(rows: Seq<KnownActorView>, actor: KnownActorView)
    ensures
        with_actor(with_actor(rows, actor), actor) == with_actor(rows, actor),
{
    lemma_without_recorded_actor(rows, actor);
}

/// An actor that was just recorded is the one found under its id.
pub proof fn lemma_find_recorded_actor(rows: Seq<KnownActorView>, actor: KnownActorView)
    ensures
        find_actor(with_actor(rows, actor), actor.actor_id) == Some(actor),
{
}

/// A follower that is known is delivered to: where the rows hold an edge
/// and the actor of that edge is known, the actor's inbox is among the
/// inboxes that a post of the profile goes to.
pub proof fn lemma_known_follower_is_reached(
    followers: Seq<Edge>,
    known: Seq<KnownActorView>,
    edge: Edge,
    actor: KnownActorView,
)
    requires
        followers.contains(edge),
        find_actor(known, edge.1) == Some(actor),
    ensures
        follower_inboxes(followers, known, edge.0).contains(actor.inbox),
    decreases followers.len(),
{
    let front = followers.drop_last();
    let before = follower_inboxes(front, known, edge.0);
    let all = follower_inboxes(followers, known, edge.0);
    if followers.last() == edge {
        assert(all == before.push(actor.inbox));
        assert(all[before.len() as int] == actor.inbox);
    } else {
        let i = choose|i: int| 0 <= i < followers.len() && followers[i] == edge;
        assert(front[i] == edge);
        lemma_known_follower_is_reached(front, known, edge, actor);
        let j = choose|j: int| 0 <= j < before.len() && before[j] == actor.inbox;
        assert(all[j] == actor.inbox);
    }
}

/// The follower table and the cache of known actors.
#[derive(Debug)]
pub struct Directory {
    pub followers: Vec<FollowerEdge>,
    pub known_actors: Vec<KnownActor>,
}

impl Directory {
    /// The follower edges, in the order of their rows.
    pub open spec fn follower_rows(&self) -> Seq<Edge> {
        edges(self.followers@)
    }

    /// The known actors, in the order of their rows.
    pub open spec fn actor_rows(&self) -> Seq<KnownActorView> {
        actors(self.known_actors@)
    }

    /// Whether the rows respect their keys: no edge and no actor id twice.
    pub open spec fn wf(&self) -> bool {
        edges_unique(self.follower_rows()) && actors_unique(self.actor_rows())
    }

    /// A directory without rows.
    pub fn new() -> (d: Directory)
        ensures
            d.wf(),
            d.follower_rows() == Seq::<Edge>::empty(),
            d.actor_rows() == Seq::<KnownActorView>::empty(),
    {
        let d = Directory { followers: Vec::new(), known_actors: Vec::new() };
        assert(d.follower_rows() =~= Seq::<Edge>::empty());
        assert(d.actor_rows() =~= Seq::<KnownActorView>::empty());
        d
    }

    /// Whether `actor_id` follows `profile_id`.
    pub fn is_follower(&self, profile_id: i64, actor_id: &str) -> (r: bool)
        ensures
            r == self.follower_rows().contains((profile_id as int, actor_id@)),
    {
        let ghost rows = self.follower_rows();
        let ghost e: Edge = (profile_id as int, actor_id@);
        let mut i: usize = 0;
        while i < self.followers.len()
            invariant
                i <= self.followers@.len(),
                rows == self.follower_rows(),
                e == (profile_id as int, actor_id@),
                forall|j: int| 0 <= j < i ==> rows[j] != e,
            decreases self.followers@.len() - i,
        {
            assert(rows[i as int] == self.followers@[i as int]@);
            if self.followers[i].profile_id == profile_id && same_text(
                self.followers[i].actor_id.as_str(),
                actor_id,
            ) {
                return true;
            }
            i = i + 1;
        }
        false
    }

    /// How many rows record that `actor_id` follows `profile_id`.
    pub fn follower_edge_count(&self, profile_id: i64, actor_id: &str) -> (n: usize)
        ensures
            n == count_edge(self.follower_rows(), (profile_id as int, actor_id@)),
    {
        let ghost rows = self.follower_rows();
        let ghost e: Edge = (profile_id as int, actor_id@);
        let mut n: usize = 0;
        let mut i: usize = 0;
        while i < self.followers.len()
            invariant
                i <= self.followers@.len(),
                rows == self.follower_rows(),
                e == (profile_id as int, actor_id@),
                n <= i,
                n == count_edge(rows.subrange(0, i as int), e),
            decreases self.followers@.len() - i,
        {
            assert(rows[i as int] == self.followers@[i as int]@);
            assert(rows.subrange(0, i as int + 1).drop_last() =~= rows.subrange(0, i as int));
            if self.followers[i].profile_id == profile_id && same_text(
                self.followers[i].actor_id.as_str(),
                actor_id,
            ) {
                n = n + 1;
            }
            i = i + 1;
        }
        assert(rows.subrange(0, i as int) =~= rows);
        n
    }

    /// Records that `actor_id` follows `profile_id`. Where that is recorded
    /// already, nothing changes.
    pub fn upsert_follower(&mut self, profile_id: i64, actor_id: &str)
        ensures
            final(self).follower_rows() == with_edge(
                old(self).follower_rows(),
                (profile_id as int, actor_id@),
            ),
            final(self).actor_rows() == old(self).actor_rows(),
            old(self).wf() ==> final(self).wf(),
    {
        let ghost e: Edge = (profile_id as int, actor_id@);
        proof {
            lemma_follow_state_machine(
                old(self).follower_rows(),
                e,
                (profile_id as int + 1, actor_id@),
            );
        }
        if !self.is_follower(profile_id, actor_id) {
            self.followers.push(FollowerEdge { profile_id, actor_id: actor_id.to_owned() });
            assert(self.follower_rows() =~= old(self).follower_rows().push(e));
        }
    }

    /// Deletes the record that `actor_id` follows `profile_id`. Where there
    /// is none, nothing changes.
    pub fn remove_follower(&mut self, profile_id: i64, actor_id: &str)
        ensures
            final(self).follower_rows() == without_edge(
                old(self).follower_rows(),
                (profile_id as int, actor_id@),
            ),
            final(self).actor_rows() == old(self).actor_rows(),
            old(self).wf() ==> final(self).wf(),
    {
        let ghost e: Edge = (profile_id as int, actor_id@);
        let ghost rows = self.follower_rows();
        proof {
            lemma_follow_state_machine(rows, e, (profile_id as int + 1, actor_id@));
        }
        let mut kept: Vec<FollowerEdge> = Vec::new();
        let mut i: usize = 0;
        while i < self.followers.len()
            invariant
                i <= self.followers@.len(),
                rows == edges(self.followers@),
                e == (profile_id as int, actor_id@),
                edges(kept@) == without_edge(rows.subrange(0, i as int), e),
            decreases self.followers@.len() - i,
        {
            assert(rows[i as int] == self.followers@[i as int]@);
            assert(rows.subrange(0, i as int + 1).drop_last() =~= rows.subrange(0, i as int));
            let row = &self.followers[i];
            if !(row.profile_id == profile_id && same_text(row.actor_id.as_str(), actor_id)) {
                let ghost before = edges(kept@);
                kept.push(
                    FollowerEdge { profile_id: row.profile_id, actor_id: row.actor_id.clone() },
                );
                assert(edges(kept@) =~= before.push(rows[i as int]));
            }
            i = i + 1;
        }
        assert(rows.subrange(0, i as int) =~= rows);
        self.followers = kept;
    }

    /// Records a remote actor. A row of the same id gives way to the new one.
    pub fn upsert_known_actor(&mut self, actor: KnownActor)
        ensures
            final(self).actor_rows() == with_actor(old(self).actor_rows(), actor@),
            final(self).follower_rows() == old(self).follower_rows(),
            old(self).wf() ==> final(self).wf(),
    {
        let ghost rows = self.actor_rows();
        let ghost id = actor.actor_id@;
        let mut kept: Vec<KnownActor> = Vec::new();
        let mut i: usize = 0;
        while i < self.known_actors.len()
            invariant
                i <= self.known_actors@.len(),
                rows == actors(self.known_actors@),
                id == actor.actor_id@,
                actors(kept@) == without_actor(rows.subrange(0, i as int), id),
            decreases self.known_actors@.len() - i,
        {
            assert(rows[i as int] == self.known_actors@[i as int]@);
            assert(rows.subrange(0, i as int + 1).drop_last() =~= rows.subrange(0, i as int));
            let row = &self.known_actors[i];
            if !same_text(row.actor_id.as_str(), actor.actor_id.as_str()) {
                let ghost before = actors(kept@);
                kept.push(row.duplicate());
                assert(actors(kept@) =~= before.push(rows[i as int]));
            }
            i = i + 1;
        }
        assert(rows.subrange(0, i as int) =~= rows);
        let ghost before = actors(kept@);
        kept.push(actor);
        assert(actors(kept@) =~= before.push(actor@));
        self.known_actors = kept;
        proof {
            if old(self).wf() {
                assert forall|x: Seq<char>| count_actor(self.actor_rows(), x) <= 1 by {
                    lemma_count_with_actor(rows, actor@, x);
                }
            }
        }
    }

    /// The row of the actor with the given id, if it is known.
    pub fn known_actor(&self, actor_id: &str) -> (r: Option<&KnownActor>)
        ensures
            match r {
                Some(row) => find_actor(self.actor_rows(), actor_id@) == Some(row@),
                None => find_actor(self.actor_rows(), actor_id@).is_none(),
            },
    {
        let ghost rows = self.actor_rows();
        let mut i: usize = self.known_actors.len();
        assert(rows.subrange(0, i as int) =~= rows);
        while i > 0
            invariant
                i <= self.known_actors@.len(),
                rows == self.actor_rows(),
                find_actor(rows, actor_id@) == find_actor(rows.subrange(0, i as int), actor_id@),
            decreases i,
        {
            assert(rows[i as int - 1] == self.known_actors@[i as int - 1]@);
            assert(rows.subrange(0, i as int).drop_last() =~= rows.subrange(0, i as int - 1));
            if same_text(self.known_actors[i - 1].actor_id.as_str(), actor_id) {
                return Some(&self.known_actors[i - 1]);
            }
            i = i - 1;
        }
        None
    }

    /// The inboxes that a post of `profile_id` goes to: one for each of its
    /// followers that is a known actor, in the order of the follower rows.
    pub fn inboxes_of_followers(&self, profile_id: i64) -> (r: Vec<String>)
        ensures
            crate::text::texts(r@) == follower_inboxes(
                self.follower_rows(),
                self.actor_rows(),
                profile_id as int,
            ),
    {
        let ghost rows = self.follower_rows();
        let ghost known = self.actor_rows();
        let mut inboxes: Vec<String> = Vec::new();
        let mut i: usize = 0;
        assert(crate::text::texts(inboxes@) =~= Seq::<Seq<char>>::empty());
        while i < self.followers.len()
            invariant
                i <= self.followers@.len(),
                rows == self.follower_rows(),
                known == self.actor_rows(),
                crate::text::texts(inboxes@) == follower_inboxes(
                    rows.subrange(0, i as int),
                    known,
                    profile_id as int,
                ),
            decreases self.followers@.len() - i,
        {
            assert(rows[i as int] == self.followers@[i as int]@);
            assert(rows.subrange(0, i as int + 1).drop_last() =~= rows.subrange(0, i as int));
            if self.followers[i].profile_id == profile_id {
                match self.known_actor(self.followers[i].actor_id.as_str()) {
                    Some(actor) => {
                        let ghost before = crate::text::texts(inboxes@);
                        inboxes.push(actor.inbox.clone());
                        assert(crate::text::texts(inboxes@) =~= before.push(actor.inbox@));
                    },
                    None => {},
                }
            }
            i = i + 1;
        }
        assert(rows.subrange(0, i as int) =~= rows);
        inboxes
    }
}

} // verus!
