use vstd::prelude::*;
use std::collections::HashMap;
use crate::fix::{Fix, wrap};
use crate::player::{Buttons, Character, Player};
use crate::yoshi::Yoshi;

verus! {

broadcast use vstd::std_specs::hash::group_hash_axioms;

/// Height of the floor check, in raw units (-50.0).
pub const TARGET_HEIGHT: i32 = -204800;
/// Lowest admissible offset from the target height.
pub const WINDOW_LOW: i32 = -62;
/// First offset above the admissible window.
pub const WINDOW_HIGH: i32 = 64;

/// A discrete motion state that advances one frame per input.
pub trait Frame: Sized + Copy {
    /// What one frame's input is made of.
    type Input: Copy;

    /// Well-formedness that every constructed state has and every frame keeps.
    spec fn inv(&self) -> bool;

    /// An integer that identifies a well-formed state.
    spec fn spec_key(&self) -> u128;

    /// The state after one frame with the given input.
    spec fn spec_advance(&self, input: Self::Input) -> Self;

    /// Vertical position.
    spec fn spec_position(&self) -> i32;

    /// The inputs that the search tries on each frame, in order.
    spec fn branches() -> Seq<Self::Input>;

    proof fn lemma_key_injective(a: Self, b: Self)
        requires
            a.inv(),
            b.inv(),
            a.spec_key() == b.spec_key(),
        ensures
            a == b,
    ;

    proof fn lemma_advance_inv(&self, input: Self::Input)
        requires
            self.inv(),
        ensures
            self.spec_advance(input).inv(),
    ;

    fn key(&self) -> (r: u128)
        requires
            self.inv(),
        ensures
            r == self.spec_key(),
    ;

    fn advance(&self, input: Self::Input) -> (r: Self)
        requires
            self.inv(),
        ensures
            r == self.spec_advance(input),
    ;

    fn position(&self) -> (r: i32)
        ensures
            r == self.spec_position(),
    ;

    fn branch_inputs() -> (r: Vec<Self::Input>)
        ensures
            r@ == Self::branches(),
    ;
}

/// Position relative to the target height, wrapped.
pub open spec fn offset<S: Frame>(s: S) -> i32 {
    wrap(s.spec_position() - TARGET_HEIGHT)
}

/// The state lies in the admissible window.
pub open spec fn is_terminal<S: Frame>(s: S) -> bool {
    WINDOW_LOW <= offset(s) < WINDOW_HIGH
}

/// The search goes on from a state outside the window that is not below the floor.
pub open spec fn expands<S: Frame>(s: S) -> bool {
    !is_terminal(s) && s.spec_position() >= 0
}

/// The state reached from `s` by the given inputs.
pub open spec fn replay<S: Frame>(s: S, inputs: Seq<S::Input>) -> S
    decreases inputs.len(),
{
    if inputs.len() == 0 {
        s
    } else {
        replay(s, inputs.drop_last()).spec_advance(inputs.last())
    }
}

/// Every input is a branch of the search, and every state before the last
/// one expands.
pub open spec fn is_search_path<S: Frame>(s: S, inputs: Seq<S::Input>) -> bool
    decreases inputs.len(),
{
    inputs.len() == 0 || {
        &&& is_search_path(s, inputs.drop_last())
        &&& expands(replay(s, inputs.drop_last()))
        &&& S::branches().contains(inputs.last())
    }
}

/// A discovered state and how it was first reached: the index of the state it
/// came from and the input that led here, or nothing for the start.
pub struct Node<S, I> {
    pub state: S,
    pub back: Option<(usize, I)>,
}

impl<S, I> Node<S, I> {
    /// Index of the node this one was reached from (0 for the start).
    pub open spec fn parent(self) -> int {
        match self.back {
            Some(link) => link.0 as int,
            None => 0,
        }
    }

    /// The input that reached this node from its parent.
    pub open spec fn via(self) -> I
        recommends
            self.back is Some,
    {
        match self.back {
            Some(link) => link.1,
            None => arbitrary(),
        }
    }
}

/// The inputs that lead from the start to node `j` along the back links.
pub open spec fn path<S: Frame>(nodes: Seq<Node<S, S::Input>>, j: int) -> Seq<S::Input>
    decreases j,
{
    if 0 <= j < nodes.len() {
        match nodes[j].back {
            Some((p, input)) => if p < j {
                path(nodes, p as int).push(input)
            } else {
                Seq::empty()
            },
            None => Seq::empty(),
        }
    } else {
        Seq::empty()
    }
}

/// Node 0 is the start, and every other node is a branch of an expanding
/// earlier node.
pub open spec fn linked<S: Frame>(nodes: Seq<Node<S, S::Input>>, start: S) -> bool {
    &&& nodes.len() >= 1
    &&& nodes[0].state == start
    &&& nodes[0].back is None
    &&& forall|j: int|
        #![trigger nodes[j]]
        0 <= j < nodes.len() ==> nodes[j].state.inv() && (j > 0 ==> {
            &&& nodes[j].back is Some
            &&& nodes[j].parent() < j
            &&& expands(nodes[nodes[j].parent()].state)
            &&& S::branches().contains(nodes[j].via())
            &&& nodes[j].state == nodes[nodes[j].parent()].state.spec_advance(nodes[j].via())
        })
}

proof fn lemma_path_replays<S: Frame>(nodes: Seq<Node<S, S::Input>>, start: S, j: int)
    requires
        linked(nodes, start),
        0 <= j < nodes.len(),
    ensures
        is_search_path(start, path(nodes, j)),
        replay(start, path(nodes, j)) == nodes[j].state,
    decreases j,
{
    if j > 0 {
        let p = nodes[j].parent();
        lemma_path_replays(nodes, start, p);
        assert(path(nodes, j).drop_last() =~= path(nodes, p));
    }
}

/// Every state reached along a search path is among the nodes, given that the
/// start is and that every branch of an expanding node is.
proof fn lemma_closed_complete<S: Frame>(
    nodes: Seq<Node<S, S::Input>>,
    start: S,
    inputs: Seq<S::Input>,
)
    requires
        nodes.len() >= 1,
        nodes[0].state == start,
        forall|j: int, b: S::Input|
            0 <= j < nodes.len() && expands(nodes[j].state) && S::branches().contains(b)
                ==> exists|m: int|
                0 <= m < nodes.len() && #[trigger] nodes[m].state == nodes[j].state.spec_advance(
                    b,
                ),
        is_search_path(start, inputs),
    ensures
        exists|m: int| 0 <= m < nodes.len() && #[trigger] nodes[m].state == replay(start, inputs),
    decreases inputs.len(),
{
    if inputs.len() == 0 {
        assert(nodes[0].state == replay(start, inputs));
    } else {
        lemma_closed_complete(nodes, start, inputs.drop_last());
        let j = choose|j: int|
            0 <= j < nodes.len() && #[trigger] nodes[j].state == replay(
                start,
                inputs.drop_last(),
            );
        assert(expands(nodes[j].state) && S::branches().contains(inputs.last()));
    }
}

/// Every branch of node `j`, if it expands, has its key in the index.
pub open spec fn expanded<S: Frame>(
    nodes: Seq<Node<S, S::Input>>,
    index: Map<u128, usize>,
    j: int,
) -> bool {
    expands(nodes[j].state) ==> forall|b: S::Input|
        #![trigger nodes[j].state.spec_advance(b)]
        S::branches().contains(b) ==> index.contains_key(nodes[j].state.spec_advance(b).spec_key())
}

/// The index maps the key of each node to the node's position, and nothing else.
pub open spec fn indexed<S: Frame>(nodes: Seq<Node<S, S::Input>>, index: Map<u128, usize>) -> bool {
    &&& forall|j: int|
        #![trigger nodes[j]]
        0 <= j < nodes.len() ==> index.contains_key(nodes[j].state.spec_key())
            && index[nodes[j].state.spec_key()] == j
    &&& forall|k: u128|
        #[trigger] index.contains_key(k) ==> index[k] < nodes.len() && nodes[index[k] as int].state.spec_key()
            == k
}

/// Offset of a position from the target height.
fn offset_of(position: i32) -> (r: i32)
    ensures
        r == wrap(position - TARGET_HEIGHT),
{
    (Fix::new_raw(position) - Fix::new_raw(TARGET_HEIGHT)).val()
}

/// Explores, depth first, every state that search paths reach from `start`,
/// each exactly once, with a back link to the node it was first reached from.
pub fn explore<S: Frame>(start: S) -> (nodes: Vec<Node<S, S::Input>>)
    requires
        start.inv(),
    ensures
        linked(nodes@, start),
        forall|j1: int, j2: int|
            0 <= j1 < nodes.len() && 0 <= j2 < nodes.len() && j1 != j2 ==> nodes@[j1].state
                != nodes@[j2].state,
        forall|j: int|
            0 <= j < nodes.len() ==> is_search_path(start, #[trigger] path(nodes@, j)) && replay(
                start,
                path(nodes@, j),
            ) == nodes@[j].state,
        forall|inputs: Seq<S::Input>|
            #[trigger] is_search_path(start, inputs) ==> exists|j: int|
                0 <= j < nodes.len() && #[trigger] nodes@[j].state == replay(start, inputs),
{
    let branches = S::branch_inputs();
    let mut nodes: Vec<Node<S, S::Input>> = Vec::new();
    nodes.push(Node { state: start, back: None });
    let mut index: HashMap<u128, usize> = HashMap::new();
    index.insert(start.key(), 0);
    let mut frontier: Vec<usize> = Vec::new();
    frontier.push(0);
    assert(frontier@[0] == 0);
    while frontier.len() > 0
        invariant
            branches@ == S::branches(),
            linked(nodes@, start),
            indexed(nodes@, index@),
            forall|f: int| 0 <= f < frontier.len() ==> frontier@[f] < nodes.len(),
            forall|j: int|
                0 <= j < nodes.len() && !frontier@.contains(j as usize) ==> #[trigger] expanded(
                    nodes@,
                    index@,
                    j,
                ),
        decreases usize::MAX - nodes.len(), frontier.len(),
    {
        let ghost nodes0 = nodes@;
        let ghost index0 = index@;
        let ghost frontier0 = frontier@;
        let i = match frontier.pop() {
            Some(i) => i,
            None => 0,
        };
        let ghost len1 = frontier.len();
        let s = nodes[i].state;
        let pos = s.position();
        let off = offset_of(pos);
        if !(WINDOW_LOW <= off && off < WINDOW_HIGH) && pos >= 0 {
            let mut k: usize = 0;
            while k < branches.len()
                invariant
                    0 <= i < nodes0.len(),
                    s == nodes0[i as int].state,
                    expands(s),
                    branches@ == S::branches(),
                    linked(nodes@, start),
                    indexed(nodes@, index@),
                    nodes.len() >= nodes0.len(),
                    nodes.len() - nodes0.len() == frontier.len() - len1,
                    len1 == frontier0.len() - 1,
                    forall|j: int| 0 <= j < nodes0.len() ==> nodes@[j] == nodes0[j],
                    forall|key: u128| index0.contains_key(key) ==> #[trigger] index@.contains_key(key),
                    forall|f: int| 0 <= f < len1 ==> frontier@[f] == frontier0[f],
                    forall|f: int| len1 <= f < frontier.len() ==> frontier@[f] >= nodes0.len(),
                    forall|f: int|
                        len1 <= f < frontier.len() ==> frontier@[f] == f - len1 + nodes0.len(),
                    forall|f: int| 0 <= f < frontier.len() ==> frontier@[f] < nodes.len(),
                    forall|m: int|
                        0 <= m < k ==> index@.contains_key(
                            #[trigger] s.spec_advance(branches@[m]).spec_key(),
                        ),
                decreases branches.len() - k,
            {
                let b = branches[k];
                let n = s.advance(b);
                proof {
                    s.lemma_advance_inv(b);
                }
                let key = n.key();
                if !index.contains_key(&key) {
                    let m = nodes.len();
                    let ghost pre = nodes@;
                    index.insert(key, m);
                    nodes.push(Node { state: n, back: Some((i, b)) });
                    frontier.push(m);
                    proof {
                        assert(S::branches().contains(b)) by {
                            assert(S::branches()[k as int] == b);
                        }
                        assert(nodes@[m as int].parent() == i);
                        assert forall|j: int| 0 <= j < nodes.len() implies #[trigger] nodes@[j].state.inv() && (j > 0 ==> {
                            &&& nodes@[j].back is Some
                            &&& nodes@[j].parent() < j
                            &&& expands(nodes@[nodes@[j].parent()].state)
                            &&& S::branches().contains(nodes@[j].via())
                            &&& nodes@[j].state == nodes@[nodes@[j].parent()].state.spec_advance(nodes@[j].via())
                        }) by {
                            if j < m {
                                assert(nodes@[j] == pre[j]);
                            }
                        }
                    }
                }
                k += 1;
            }
            proof {
                assert forall|bb: S::Input|
                    #![trigger s.spec_advance(bb)]
                    S::branches().contains(bb) implies index@.contains_key(s.spec_advance(bb).spec_key()) by {
                    let m = choose|m: int| 0 <= m < S::branches().len() && S::branches()[m] == bb;
                    assert(index@.contains_key(s.spec_advance(branches@[m]).spec_key()));
                }
            }
        }
        proof {
            assert forall|j: int|
                0 <= j < nodes.len() && !frontier@.contains(j as usize) implies #[trigger] expanded(
                nodes@,
                index@,
                j,
            ) by {
                if j < nodes0.len() {
                    assert(nodes@[j] == nodes0[j]);
                    if j != i {
                        assert(!frontier0.contains(j as usize)) by {
                            if frontier0.contains(j as usize) {
                                let f = choose|f: int| 0 <= f < frontier0.len() && frontier0[f] == j as usize;
                                if f < len1 {
                                    assert(frontier@[f] == j as usize);
                                } else {
                                    assert(frontier0[f] == frontier0.last());
                                }
                            }
                        }
                        assert(expanded(nodes0, index0, j));
                    }
                } else {
                    assert(frontier@[j - nodes0.len() + len1] == j as usize);
                }
            }
        }
    }
    proof {
        let ns = nodes@;
        assert forall|j: int, b: S::Input|
            0 <= j < ns.len() && expands(ns[j].state) && S::branches().contains(b) implies exists|m: int|
                0 <= m < ns.len() && #[trigger] ns[m].state == ns[j].state.spec_advance(b) by {
            assert(expanded(ns, index@, j));
            let key = ns[j].state.spec_advance(b).spec_key();
            let m = index@[key] as int;
            ns[j].state.lemma_advance_inv(b);
            S::lemma_key_injective(ns[m].state, ns[j].state.spec_advance(b));
        }
        assert forall|inputs: Seq<S::Input>| #[trigger] is_search_path(start, inputs) implies exists|j: int|
            0 <= j < ns.len() && #[trigger] ns[j].state == replay(start, inputs) by {
            lemma_closed_complete(ns, start, inputs);
        }
        assert forall|j: int| 0 <= j < ns.len() implies is_search_path(start, #[trigger] path(ns, j)) && replay(
            start,
            path(ns, j),
        ) == ns[j].state by {
            lemma_path_replays(ns, start, j);
        }
    }
    nodes
}

/// The inputs along the back links from the start to node `j`.
fn path_to<S: Frame>(nodes: &Vec<Node<S, S::Input>>, Ghost(start): Ghost<S>, j: usize) -> (r: Vec<
    S::Input,
>)
    requires
        linked(nodes@, start),
        j < nodes.len(),
    ensures
        r@ == path(nodes@, j as int),
{
    let mut inputs: Vec<S::Input> = Vec::new();
    let mut cur = j;
    while cur > 0
        invariant
            linked(nodes@, start),
            cur < nodes.len(),
            j < nodes.len(),
            path(nodes@, j as int) == path(nodes@, cur as int) + inputs@,
        decreases cur,
    {
        match nodes[cur].back {
            Some((p, b)) => {
                let ghost prev = inputs@;
                assert(path(nodes@, cur as int) == path(nodes@, p as int).push(b));
                inputs.insert(0, b);
                assert(path(nodes@, p as int) + inputs@ =~= path(nodes@, p as int).push(b) + prev);
                cur = p;
            },
            None => {
                cur = 0;
            },
        }
    }
    assert(path(nodes@, 0) =~= Seq::empty());
    assert(inputs@ =~= path(nodes@, j as int));
    inputs
}

/// Each reported input sequence is a search path from `start` that ends in
/// the admissible window, reported with the offset it ends at.
pub open spec fn only_setups<S: Frame>(start: S, r: Seq<(Vec<S::Input>, i32)>) -> bool {
    forall|i: int|
        #![trigger r[i]]
        0 <= i < r.len() ==> {
            &&& is_search_path(start, r[i].0@)
            &&& is_terminal(replay(start, r[i].0@))
            &&& r[i].1 == offset(replay(start, r[i].0@))
        }
}

/// No two reported sequences end in the same state.
pub open spec fn each_once<S: Frame>(start: S, r: Seq<(Vec<S::Input>, i32)>) -> bool {
    forall|i: int, j: int|
        0 <= i < r.len() && 0 <= j < r.len() && i != j ==> replay(start, r[i].0@) != replay(
            start,
            r[j].0@,
        )
}

/// Every state in the window that a search path reaches is reported.
pub open spec fn every_setup<S: Frame>(start: S, r: Seq<(Vec<S::Input>, i32)>) -> bool {
    forall|inputs: Seq<S::Input>|
        is_search_path(start, inputs) && is_terminal(#[trigger] replay(start, inputs))
            ==> exists|i: int| 0 <= i < r.len() && replay(start, #[trigger] r[i].0@) == replay(start, inputs)
}

/// Every state in the admissible window that search paths reach from
/// `start`, each once, as the inputs that reach it and its offset.
pub fn find_setups<S: Frame>(start: S) -> (r: Vec<(Vec<S::Input>, i32)>)
    requires
        start.inv(),
    ensures
        only_setups(start, r@),
        each_once(start, r@),
        every_setup(start, r@),
{
    let nodes = explore(start);
    let mut r: Vec<(Vec<S::Input>, i32)> = Vec::new();
    let ghost mut picked: Seq<int> = Seq::empty();
    let mut j: usize = 0;
    while j < nodes.len()
        invariant
            j <= nodes.len(),
            linked(nodes@, start),
            forall|t1: int, t2: int|
                0 <= t1 < nodes.len() && 0 <= t2 < nodes.len() && t1 != t2 ==> nodes@[t1].state
                    != nodes@[t2].state,
            forall|t: int|
                0 <= t < nodes.len() ==> is_search_path(start, #[trigger] path(nodes@, t))
                    && replay(start, path(nodes@, t)) == nodes@[t].state,
            picked.len() == r.len(),
            forall|a: int, b: int| 0 <= a < b < picked.len() ==> picked[a] < picked[b],
            forall|a: int|
                #![trigger picked[a]]
                0 <= a < picked.len() ==> {
                    &&& 0 <= picked[a] < j
                    &&& r@[a].0@ == path(nodes@, picked[a])
                    &&& is_terminal(nodes@[picked[a]].state)
                    &&& r@[a].1 == offset(nodes@[picked[a]].state)
                },
            forall|t: int|
                0 <= t < j && is_terminal(#[trigger] nodes@[t].state) ==> exists|a: int|
                    0 <= a < picked.len() && picked[a] == t,
        decreases nodes.len() - j,
    {
        let off = offset_of(nodes[j].state.position());
        if WINDOW_LOW <= off && off < WINDOW_HIGH {
            let inputs = path_to(&nodes, Ghost(start), j);
            r.push((inputs, off));
            proof {
                let old_picked = picked;
                picked = picked.push(j as int);
                assert(picked[picked.len() - 1] == j);
                assert forall|t: int|
                    0 <= t < j && is_terminal(#[trigger] nodes@[t].state) implies exists|a: int|
                    0 <= a < picked.len() && picked[a] == t by {
                    let a = choose|a: int| 0 <= a < old_picked.len() && old_picked[a] == t;
                    assert(picked[a] == old_picked[a]);
                }
            }
        }
        j += 1;
    }
    proof {
        assert forall|i: int|
            #![trigger r@[i]]
            0 <= i < r.len() implies {
            &&& is_search_path(start, r@[i].0@)
            &&& is_terminal(replay(start, r@[i].0@))
            &&& r@[i].1 == offset(replay(start, r@[i].0@))
        } by {
            let t = picked[i];
            assert(r@[i].0@ == path(nodes@, t));
            assert(replay(start, path(nodes@, t)) == nodes@[t].state);
        }
        assert forall|a: int, b: int|
            0 <= a < r.len() && 0 <= b < r.len() && a != b implies replay(start, r@[a].0@) != replay(
            start,
            r@[b].0@,
        ) by {
            assert(picked[a] == picked[a] && picked[b] == picked[b]);
            if a < b {
                assert(picked[a] < picked[b]);
            } else {
                assert(picked[b] < picked[a]);
            }
        }
        assert forall|inputs: Seq<S::Input>|
            is_search_path(start, inputs) && is_terminal(#[trigger] replay(start, inputs))
            implies exists|i: int|
            0 <= i < r.len() && replay(start, #[trigger] r@[i].0@) == replay(start, inputs) by {
            let t = choose|t: int| 0 <= t < nodes.len() && #[trigger] nodes@[t].state == replay(start, inputs);
            let a = choose|a: int| 0 <= a < picked.len() && picked[a] == t;
            assert(r@[a].0@ == path(nodes@, t));
        }
    }
    r
}

/// All floor-tunnelling setups of a character that starts `position_y`
/// above the floor with the given horizontal speed and jump number (0, 1 or 2
/// for a single, double or triple jump): holding B or not on each frame, or
/// ground pounding to below the floor.
pub fn tunnel_bfs(character: Character, position_y: Fix, horz_speed: Fix, jump_index: usize) -> (r:
    Vec<(Vec<Buttons>, i32)>)
    requires
        jump_index < 3,
    ensures
        only_setups(Player::start(character, position_y, horz_speed, jump_index as int), r@),
        each_once(Player::start(character, position_y, horz_speed, jump_index as int), r@),
        every_setup(Player::start(character, position_y, horz_speed, jump_index as int), r@),
{
    find_setups(Player::new(character, position_y, horz_speed, jump_index))
}

/// All setups of a Yoshi jump from the floor with the given horizontal speed,
/// single or double, that tunnel by holding B or not on each frame.
pub fn yoshi_bfs(horz_speed: Fix, double_jump: bool) -> (r: Vec<(Vec<bool>, i32)>)
    ensures
        only_setups(Yoshi::start(horz_speed, double_jump), r@),
        each_once(Yoshi::start(horz_speed, double_jump), r@),
        every_setup(Yoshi::start(horz_speed, double_jump), r@),
{
    find_setups(Yoshi::new(horz_speed, double_jump))
}

} // verus!
