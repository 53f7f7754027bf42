use vstd::prelude::*;

verus! {

/// The simplex that the GJK search grows and shrinks: up to `N` points,
/// the most recently found one first.
pub struct Simplex<T, const N: usize> {
    points: Vec<T>,
    size: usize,
}

impl<T, const N: usize> View for Simplex<T, N> {
    type V = Seq<T>;

    /// The points currently in the simplex, most recent first.
    closed spec fn view(&self) -> Seq<T> {
        self.points@.subrange(0, self.size as int)
    }
}

impl<T, const N: usize> Simplex<T, N> {
    /// The backing storage holds `N` slots, of which the first `size` are in use.
    pub closed spec fn wf(&self) -> bool {
        self.points.len() == N && self.size <= N
    }
}

impl<T: Copy + Default, const N: usize> Simplex<T, N> {
    /// An empty simplex.
    pub fn new() -> (s: Self)
        ensures
            s.wf(),
            s@ == Seq::<T>::empty(),
    {
        let mut points: Vec<T> = Vec::new();
        let mut i: usize = 0;
        while i < N
            invariant
                i <= N,
                points.len() == i,
            decreases N - i,
        {
            points.push(T::default());
            i = i + 1;
        }
        Simplex { points, size: 0 }
    }

    /// Puts `point` in front of the points the simplex already has.
    pub fn push_front(&mut self, point: T)
        requires
            old(self).wf(),
            old(self)@.len() < N,
        ensures
            final(self).wf(),
            final(self)@ == seq![point] + old(self)@,
    {
        let ghost old_points = self.points@;
        let size = self.size;
        let mut i: usize = size;
        while i > 0
            invariant
                i <= size < N,
                self.size == size,
                self.points.len() == N,
                old_points.len() == N,
                forall|j: int| 0 <= j < i ==> self.points@[j] == old_points[j],
                forall|j: int| i < j <= size ==> self.points@[j] == old_points[j - 1],
            decreases i,
        {
            let p = self.points[i - 1];
            self.points.set(i, p);
            i = i - 1;
        }
        self.points.set(0, point);
        self.size = size + 1;
        assert(self@ =~= seq![point] + old(self)@);
    }

    /// Replaces the points of the simplex with `value`.
    pub fn set(&mut self, value: &[T])
        requires
            old(self).wf(),
            value@.len() <= N,
        ensures
            final(self).wf(),
            final(self)@ == value@,
    {
        let len = value.len();
        let mut i: usize = 0;
        while i < len
            invariant
                len == value@.len() <= N,
                i <= len,
                self.points.len() == N,
                forall|j: int| 0 <= j < i ==> self.points@[j] == value@[j],
            decreases len - i,
        {
            self.points.set(i, value[i]);
            i = i + 1;
        }
        self.size = len;
        assert(self@ =~= value@);
    }

    /// The number of points in the simplex.
    pub fn size(&self) -> (r: usize)
        requires
            self.wf(),
        ensures
            r == self@.len(),
    {
        self.size
    }

    /// The points of the simplex, most recent first.
    pub fn to_vec(&self) -> (r: Vec<T>)
        requires
            self.wf(),
        ensures
            r@ == self@,
    {
        let mut r: Vec<T> = Vec::new();
        let mut i: usize = 0;
        while i < self.size
            invariant
                self.wf(),
                i <= self.size,
                r@ == self@.subrange(0, i as int),
            decreases self.size - i,
        {
            r.push(self.points[i]);
            i = i + 1;
            assert(r@ =~= self@.subrange(0, i as int));
        }
        assert(self@.subrange(0, self.size as int) =~= self@);
        r
    }
}

impl<T, const N: usize> core::ops::Index<usize> for Simplex<T, N> {
    type Output = T;

    /// The point at `index`, counting from the most recent.
    fn index(&self, index: usize) -> (r: &T)
        ensures
            *r == self@[index as int],
    {
        &self.points[index]
    }
}

impl<T, const N: usize> vstd::std_specs::core::IndexSpecImpl<usize> for Simplex<T, N> {
    open spec fn index_req(&self, index: &usize) -> bool {
        self.wf() && *index < self@.len()
    }
}

/// The edge of `face` that runs from its corner `a` to its corner `b`.
pub open spec fn face_edge(faces: Seq<[usize; 3]>, face: int, a: int, b: int) -> (usize, usize) {
    (faces[face][a], faces[face][b])
}

/// Records the edge from corner `a` to corner `b` of `face` in the list of
/// boundary edges of a hole in a polytope. Where the list already holds the
/// same edge in the opposite direction, the edge is shared by two removed
/// faces and so not on the boundary: its first occurrence is removed instead.
pub fn add_if_unique_edge(
    edges: &mut Vec<(usize, usize)>,
    faces: &[[usize; 3]],
    face: usize,
    a: usize,
    b: usize,
)
    requires
        face < faces@.len(),
        a < 3,
        b < 3,
    ensures
        ({
            let edge = face_edge(faces@, face as int, a as int, b as int);
            let reversed = (edge.1, edge.0);
            final(edges)@ == if old(edges)@.contains(reversed) {
                old(edges)@.remove_value(reversed)
            } else {
                old(edges)@.push(edge)
            }
        }),
{
    let reversed = (faces[face][b], faces[face][a]);
    let mut i: usize = 0;
    while i < edges.len()
        invariant
            i <= edges@.len(),
            edges@ == old(edges)@,
            forall|j: int| 0 <= j < i ==> edges@[j] != reversed,
            reversed == (face_edge(faces@, face as int, b as int, a as int)),
        decreases edges@.len() - i,
    {
        if edges[i].0 == reversed.0 && edges[i].1 == reversed.1 {
            proof {
                let s = edges@;
                s.index_of_first_ensures(reversed);
                assert(s.contains(reversed)) by {
                    assert(s[i as int] == reversed);
                }
                let k = s.index_of_first(reversed).unwrap();
                assert(k == i) by {
                    if k < i {
                        assert(s[k] != reversed);
                    } else if k > i {
                        assert(s[i as int] == reversed);
                    }
                }
            }
            edges.remove(i);
            return;
        }
        i = i + 1;
    }
    edges.push((faces[face][a], faces[face][b]));
}

/// What `Vec::swap_remove` leaves of `s`: the element at `i` replaced by the
/// last one, and the last one dropped.
pub open spec fn swap_removed<T>(s: Seq<T>, i: int) -> Seq<T> {
    s.update(i, s.last()).drop_last()
}

/// The boundary edge list after recording `edge`: a list that holds it
/// reversed loses that first occurrence, any other list gains the edge.
pub open spec fn edge_recorded(edges: Seq<(usize, usize)>, edge: (usize, usize)) -> Seq<(usize, usize)> {
    let reversed = (edge.1, edge.0);
    if edges.contains(reversed) {
        edges.remove_value(reversed)
    } else {
        edges.push(edge)
    }
}

/// The boundary edge list after recording the three edges of `face` in turn.
pub open spec fn face_edges_recorded(edges: Seq<(usize, usize)>, face: [usize; 3]) -> Seq<(usize, usize)> {
    edge_recorded(
        edge_recorded(edge_recorded(edges, (face[0], face[1])), (face[1], face[2])),
        (face[2], face[0]),
    )
}

/// The faces that stay, as indices into the original list, and the boundary
/// edges, when the faces listed in `ids` are swept from position `i` on: a
/// visible face is swap-removed, its edges recorded, and the face moved into
/// its place is looked at next; an invisible face is kept.
pub open spec fn sweep(
    faces: Seq<[usize; 3]>,
    visible: Seq<bool>,
    ids: Seq<usize>,
    i: nat,
    edges: Seq<(usize, usize)>,
) -> (Seq<usize>, Seq<(usize, usize)>)
    decreases ids.len() - i,
{
    if i >= ids.len() {
        (ids, edges)
    } else if visible[ids[i as int] as int] {
        sweep(
            faces,
            visible,
            swap_removed(ids, i as int),
            i,
            face_edges_recorded(edges, faces[ids[i as int] as int]),
        )
    } else {
        sweep(faces, visible, ids, i + 1, edges)
    }
}

/// The indices `0..n` in order.
pub open spec fn all_indices(n: nat) -> Seq<usize> {
    Seq::new(n, |k: int| k as usize)
}

/// The order in which the sweep of `ids` from position `i` on removes faces,
/// as their indices in the original list.
pub open spec fn removal_order(visible: Seq<bool>, ids: Seq<usize>, i: nat) -> Seq<usize>
    decreases ids.len() - i,
{
    if i >= ids.len() {
        Seq::empty()
    } else if visible[ids[i as int] as int] {
        seq![ids[i as int]] + removal_order(visible, swap_removed(ids, i as int), i)
    } else {
        removal_order(visible, ids, i + 1)
    }
}

/// The boundary edge list after recording, one face after the other, the
/// three edges of each face `faces[k]` for `k` in `removed`.
pub open spec fn edges_of_faces(faces: Seq<[usize; 3]>, removed: Seq<usize>, edges: Seq<(usize, usize)>) -> Seq<(usize, usize)>
    decreases removed.len(),
{
    if removed.len() == 0 {
        edges
    } else {
        edges_of_faces(
            faces,
            removed.drop_first(),
            face_edges_recorded(edges, faces[removed[0] as int]),
        )
    }
}

/// The sweep's edges are those of the faces it removes, each face's own
/// three edges recorded once, in the order the faces are removed.
proof fn lemma_sweep_records_removed_faces(
    faces: Seq<[usize; 3]>,
    visible: Seq<bool>,
    ids: Seq<usize>,
    i: nat,
    edges: Seq<(usize, usize)>,
)
    ensures
        sweep(faces, visible, ids, i, edges).1 == edges_of_faces(
            faces,
            removal_order(visible, ids, i),
            edges,
        ),
    decreases ids.len() - i,
{
    if i < ids.len() {
        if visible[ids[i as int] as int] {
            let rest = swap_removed(ids, i as int);
            let next = face_edges_recorded(edges, faces[ids[i as int] as int]);
            lemma_sweep_records_removed_faces(faces, visible, rest, i, next);
            let order = removal_order(visible, ids, i);
            assert(order.drop_first() =~= removal_order(visible, rest, i));
            assert(order[0] == ids[i as int]);
        } else {
            lemma_sweep_records_removed_faces(faces, visible, ids, i + 1, edges);
        }
    }
}

/// The sweep from position `i` removes each face listed at or after `i`
/// that is visible, and no other, each once.
proof fn lemma_removal_order_is_visible_faces(visible: Seq<bool>, ids: Seq<usize>, i: nat)
    requires
        ids.no_duplicates(),
        i <= ids.len(),
    ensures
        removal_order(visible, ids, i).no_duplicates(),
        forall|x: usize|
            #[trigger] removal_order(visible, ids, i).contains(x) <==> (ids.subrange(
                i as int,
                ids.len() as int,
            ).contains(x) && visible[x as int]),
    decreases ids.len() - i,
{
    let len = ids.len();
    if i == len {
        assert forall|x: usize| !ids.subrange(i as int, len as int).contains(x) by {}
    } else if visible[ids[i as int] as int] {
        let rest = swap_removed(ids, i as int);
        let head = ids[i as int];
        assert forall|a: int, b: int| 0 <= a < rest.len() && 0 <= b < rest.len() && a != b implies rest[a]
            != rest[b] by {
            let pa = if a == i { len - 1 } else { a };
            let pb = if b == i { len - 1 } else { b };
            assert(rest[a] == ids[pa]);
            assert(rest[b] == ids[pb]);
        }
        lemma_removal_order_is_visible_faces(visible, rest, i);
        let tail = removal_order(visible, rest, i);
        let order = removal_order(visible, ids, i);
        assert(order =~= seq![head] + tail);
        // what is left to sweep after the removal is what was left before, but the removed face
        assert forall|x: usize| #[trigger] rest.subrange(i as int, rest.len() as int).contains(x) <==> (
        ids.subrange(i as int, len as int).contains(x) && x != head) by {
            if rest.subrange(i as int, rest.len() as int).contains(x) {
                let k = choose|k: int| #![auto] 0 <= k < rest.len() - i && rest.subrange(i as int, rest.len() as int)[k] == x;
                let p = if k == 0 { len - 1 } else { i + k };
                assert(ids[p] == x);
                assert(ids.subrange(i as int, len as int)[p - i] == x);
                assert(p != i);
            }
            if ids.subrange(i as int, len as int).contains(x) && x != head {
                let k = choose|k: int| #![auto] 0 <= k < len - i && ids.subrange(i as int, len as int)[k] == x;
                let p = i + k;
                assert(p != i);
                if p == len - 1 {
                    assert(rest[i as int] == x);
                    assert(rest.subrange(i as int, rest.len() as int)[0] == x);
                } else {
                    assert(rest[p] == x);
                    assert(rest.subrange(i as int, rest.len() as int)[p - i] == x);
                }
            }
        }
        assert(ids.subrange(i as int, len as int)[0] == head);
        assert(!tail.contains(head));
        assert forall|a: int, b: int| 0 <= a < order.len() && 0 <= b < order.len() && a != b implies order[a]
            != order[b] by {
            if a > 0 && b > 0 {
                assert(order[a] == tail[a - 1] && order[b] == tail[b - 1]);
            } else if a == 0 {
                assert(order[b] == tail[b - 1]);
                assert(tail.contains(order[b]));
            } else {
                assert(order[a] == tail[a - 1]);
                assert(tail.contains(order[a]));
            }
        }
        assert forall|x: usize| #[trigger] order.contains(x) <==> (ids.subrange(i as int, len as int).contains(
            x,
        ) && visible[x as int]) by {
            if order.contains(x) {
                let k = choose|k: int| #![auto] 0 <= k < order.len() && order[k] == x;
                if k > 0 {
                    assert(tail[k - 1] == x);
                    assert(tail.contains(x));
                }
            }
            if ids.subrange(i as int, len as int).contains(x) && visible[x as int] && x != head {
                assert(rest.subrange(i as int, rest.len() as int).contains(x));
                assert(tail.contains(x));
                let k = choose|k: int| #![auto] 0 <= k < tail.len() && tail[k] == x;
                assert(order[k + 1] == x);
            }
            if x == head {
                assert(order[0] == x);
            }
        }
    } else {
        lemma_removal_order_is_visible_faces(visible, ids, i + 1);
        let head = ids[i as int];
        let later = ids.subrange(i as int + 1, len as int);
        let from_i = ids.subrange(i as int, len as int);
        assert forall|x: usize| #[trigger] later.contains(x) <==> (from_i.contains(x) && x != head) by {
            if later.contains(x) {
                let k = choose|k: int| 0 <= k < later.len() && #[trigger] later[k] == x;
                assert(from_i[k + 1] == x);
                assert(ids[i + 1 + k] == x);
            }
            if from_i.contains(x) && x != head {
                let k = choose|k: int| 0 <= k < from_i.len() && #[trigger] from_i[k] == x;
                assert(k != 0);
                assert(later[k - 1] == x);
            }
        }
    }
}

/// One expansion step removes exactly the visible faces, each once, and
/// leaves as the hole's boundary what recording the three edges of each
/// removed face, in the order they are removed, gives: no face's edges are
/// recorded twice and every visible face's edges are recorded.
pub proof fn lemma_removed_faces_give_the_boundary(faces: Seq<[usize; 3]>, visible: Seq<bool>)
    requires
        faces.len() == visible.len() <= usize::MAX,
    ensures
        ({
            let order = removal_order(visible, all_indices(faces.len()), 0);
            &&& order.no_duplicates()
            &&& forall|k: usize| #[trigger] order.contains(k) <==> (k < faces.len() && visible[k as int])
            &&& sweep(faces, visible, all_indices(faces.len()), 0, Seq::empty()).1 == edges_of_faces(
                faces,
                order,
                Seq::empty(),
            )
        }),
{
    let ids = all_indices(faces.len());
    assert forall|a: int, b: int| 0 <= a < ids.len() && 0 <= b < ids.len() && a != b implies ids[a]
        != ids[b] by {
        assert(ids[a] == a as usize && ids[b] == b as usize);
    }
    lemma_removal_order_is_visible_faces(visible, ids, 0);
    lemma_sweep_records_removed_faces(faces, visible, ids, 0, Seq::empty());
    assert(ids.subrange(0, ids.len() as int) =~= ids);
    assert forall|k: usize| #[trigger] ids.contains(k) <==> k < faces.len() by {
        if k < faces.len() {
            assert(ids[k as int] == k);
        }
    }
}

/// Removes from a polytope the faces that its new support point sees, one
/// expansion step of EPA. `visible[k]` tells whether face `k` faces the new
/// point. Returns the faces that stay, their indices in `faces` (so that the
/// caller can keep its per-face data in step), and the edges of the hole
/// that the removed faces leave, oriented as in the removed faces.
pub fn remove_visible_faces(faces: &[[usize; 3]], visible: &[bool]) -> (r: (
    Vec<[usize; 3]>,
    Vec<usize>,
    Vec<(usize, usize)>,
))
    requires
        faces@.len() == visible@.len(),
    ensures
        (r.1@, r.2@) == sweep(faces@, visible@, all_indices(faces@.len()), 0, Seq::empty()),
        exists|order: Seq<usize>|
            #![trigger edges_of_faces(faces@, order, Seq::empty())]
            order.no_duplicates() && (forall|k: usize|
                #[trigger] order.contains(k) <==> (k < faces@.len() && visible@[k as int])) && r.2@
                == edges_of_faces(faces@, order, Seq::empty()),
        r.0@ == r.1@.map_values(|k: usize| faces@[k as int]),
        r.1@.no_duplicates(),
        forall|k: int| 0 <= k < r.1@.len() ==> r.1@[k] < faces@.len() && !visible@[r.1@[k] as int],
        forall|j: int| 0 <= j < faces@.len() && !visible@[j] ==> r.1@.contains(j as usize),
{
    let n = faces.len();
    let mut current: Vec<[usize; 3]> = Vec::new();
    let mut ids: Vec<usize> = Vec::new();
    let mut k: usize = 0;
    while k < n
        invariant
            n == faces@.len(),
            k <= n,
            ids@ == all_indices(k as nat),
            current@ == ids@.map_values(|j: usize| faces@[j as int]),
        decreases n - k,
    {
        current.push(faces[k]);
        ids.push(k);
        k = k + 1;
        assert(ids@ =~= all_indices(k as nat));
        assert(current@ =~= ids@.map_values(|j: usize| faces@[j as int]));
    }
    let mut edges: Vec<(usize, usize)> = Vec::new();
    let mut i: usize = 0;
    let ghost target = sweep(faces@, visible@, all_indices(n as nat), 0, Seq::empty());
    assert forall|j: int| 0 <= j < n implies #[trigger] ids@.contains(j as usize) by {
        assert(ids@[j] == j as usize);
    }
    while i < ids.len()
        invariant
            n == faces@.len() == visible@.len(),
            target == sweep(faces@, visible@, all_indices(n as nat), 0, Seq::empty()),
            sweep(faces@, visible@, ids@, i as nat, edges@) == target,
            current@ == ids@.map_values(|j: usize| faces@[j as int]),
            i <= ids@.len(),
            ids@.no_duplicates(),
            forall|q: int| 0 <= q < ids@.len() ==> ids@[q] < n,
            forall|q: int| 0 <= q < i ==> !visible@[ids@[q] as int],
            forall|j: int| 0 <= j < n && !visible@[j] ==> ids@.contains(j as usize),
        decreases ids@.len() - i,
    {
        if visible[ids[i]] {
            let ghost before = ids@;
            let ghost edges_before = edges@;
            add_if_unique_edge(&mut edges, current.as_slice(), i, 0, 1);
            add_if_unique_edge(&mut edges, current.as_slice(), i, 1, 2);
            add_if_unique_edge(&mut edges, current.as_slice(), i, 2, 0);
            current.swap_remove(i);
            ids.swap_remove(i);
            proof {
                assert(edges@ == face_edges_recorded(edges_before, faces@[before[i as int] as int]));
                assert(ids@ == swap_removed(before, i as int));
                assert(current@ =~= ids@.map_values(|j: usize| faces@[j as int]));
                assert forall|j: int| 0 <= j < n && !visible@[j] implies ids@.contains(j as usize) by {
                    let p = choose|p: int| 0 <= p < before.len() && before[p] == j as usize;
                    assert(p != i);
                    if p == before.len() - 1 {
                        assert(ids@[i as int] == j as usize);
                    } else {
                        assert(ids@[p] == j as usize);
                    }
                }
                assert forall|a: int, b: int| 0 <= a < ids@.len() && 0 <= b < ids@.len() && a != b
                    implies ids@[a] != ids@[b] by {
                    let pa = if a == i { before.len() - 1 } else { a };
                    let pb = if b == i { before.len() - 1 } else { b };
                    assert(ids@[a] == before[pa]);
                    assert(ids@[b] == before[pb]);
                }
            }
        } else {
            i = i + 1;
        }
    }
    proof {
        lemma_removed_faces_give_the_boundary(faces@, visible@);
        let order = removal_order(visible@, all_indices(n as nat), 0);
        assert(edges@ == edges_of_faces(faces@, order, Seq::empty()));
    }
    (current, ids, edges)
}

/// The faces that close the hole around a new point: one per boundary edge,
/// from the edge's two ends to the point at index `apex`.
pub fn faces_to_apex(edges: &[(usize, usize)], apex: usize) -> (r: Vec<[usize; 3]>)
    ensures
        r@.len() == edges@.len(),
        forall|k: int| 0 <= k < edges@.len() ==> r@[k] == [edges@[k].0, edges@[k].1, apex],
{
    let mut faces: Vec<[usize; 3]> = Vec::new();
    let mut k: usize = 0;
    while k < edges.len()
        invariant
            k <= edges@.len(),
            faces@.len() == k,
            forall|q: int| 0 <= q < k ==> faces@[q] == [edges@[q].0, edges@[q].1, apex],
        decreases edges@.len() - k,
    {
        let (a, b) = edges[k];
        faces.push([a, b, apex]);
        k = k + 1;
    }
    faces
}

} // verus!
