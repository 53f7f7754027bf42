use bengine::collision::{add_if_unique_edge, faces_to_apex, remove_visible_faces, Simplex};

#[test]
fn simplex_push_front_puts_newest_first() {
    let mut s = Simplex::<u32, 4>::new();
    assert_eq!(s.size(), 0);
    s.push_front(1);
    s.push_front(2);
    s.push_front(3);
    assert_eq!(s.size(), 3);
    assert_eq!(s[0], 3);
    assert_eq!(s[1], 2);
    assert_eq!(s[2], 1);
    s.push_front(4);
    assert_eq!(s.to_vec(), vec![4, 3, 2, 1]);
}

#[test]
fn simplex_set_replaces_points() {
    let mut s = Simplex::<(i32, i32), 4>::new();
    s.push_front((1, 1));
    s.push_front((2, 2));
    s.push_front((3, 3));
    s.push_front((4, 4));
    s.set(&[(4, 4), (2, 2)]);
    assert_eq!(s.size(), 2);
    assert_eq!(s.to_vec(), vec![(4, 4), (2, 2)]);
    s.push_front((5, 5));
    assert_eq!(s.to_vec(), vec![(5, 5), (4, 4), (2, 2)]);
    s.set(&[]);
    assert_eq!(s.size(), 0);
}

#[test]
fn unique_edge_is_added() {
    let faces = [[0, 1, 2], [0, 3, 1]];
    let mut edges = Vec::new();
    add_if_unique_edge(&mut edges, &faces, 0, 0, 1);
    add_if_unique_edge(&mut edges, &faces, 0, 1, 2);
    add_if_unique_edge(&mut edges, &faces, 0, 2, 0);
    assert_eq!(edges, vec![(0, 1), (1, 2), (2, 0)]);
}

#[test]
fn shared_edge_is_removed() {
    // Faces 0 and 1 share the edge 0-1, walked in opposite directions.
    let faces = [[0, 1, 2], [0, 3, 1]];
    let mut edges = Vec::new();
    for (a, b) in [(0, 1), (1, 2), (2, 0)] {
        add_if_unique_edge(&mut edges, &faces, 0, a, b);
    }
    for (a, b) in [(0, 1), (1, 2), (2, 0)] {
        add_if_unique_edge(&mut edges, &faces, 1, a, b);
    }
    assert_eq!(edges, vec![(1, 2), (2, 0), (0, 3), (3, 1)]);
}

#[test]
fn only_first_reversed_edge_is_removed() {
    let faces = [[5, 6, 7]];
    let mut edges = vec![(9, 9), (6, 5), (1, 1), (6, 5)];
    add_if_unique_edge(&mut edges, &faces, 0, 0, 1);
    assert_eq!(edges, vec![(9, 9), (1, 1), (6, 5)]);
}

#[test]
fn visible_faces_leave_their_boundary() {
    let faces = [[0, 1, 2], [0, 3, 1], [0, 2, 3], [1, 3, 2]];
    let (kept_faces, kept, edges) = remove_visible_faces(&faces, &[true, true, false, false]);
    assert_eq!(kept, vec![3, 2]);
    assert_eq!(kept_faces, vec![[1, 3, 2], [0, 2, 3]]);
    assert_eq!(edges, vec![(1, 2), (2, 0), (0, 3), (3, 1)]);
    assert_eq!(faces_to_apex(&edges, 4), vec![[1, 2, 4], [2, 0, 4], [0, 3, 4], [3, 1, 4]]);
}

#[test]
fn no_visible_face_keeps_the_polytope() {
    let faces = [[0, 1, 2], [0, 3, 1]];
    let (kept_faces, kept, edges) = remove_visible_faces(&faces, &[false, false]);
    assert_eq!(kept, vec![0, 1]);
    assert_eq!(kept_faces, faces.to_vec());
    assert!(edges.is_empty());
    assert!(faces_to_apex(&edges, 7).is_empty());
}
