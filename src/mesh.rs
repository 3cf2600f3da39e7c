//! De-duplication of mesh vertices: each distinct vertex is stored once and
//! the index list refers to it.
use vstd::prelude::*;

verus! {

/// A vertex as the bit patterns of its eight 32-bit components: position
/// (x, y, z), colour (r, g, b) and texture coordinate (u, v). Two vertices
/// are the same when their bit patterns are.
#[derive(Clone, Copy, Debug, PartialEq, Eq, Hash, Structural)]
pub struct VertexKey {
    pub x: u32,
    pub y: u32,
    pub z: u32,
    pub r: u32,
    pub g: u32,
    pub b: u32,
    pub u: u32,
    pub v: u32,
}

/// The distinct vertices of `keys`, in the order of their first occurrence.
pub open spec fn distinct_vertices(keys: Seq<VertexKey>) -> Seq<VertexKey>
    decreases keys.len(),
{
    if keys.len() == 0 {
        Seq::empty()
    } else {
        let prev = distinct_vertices(keys.drop_last());
        if prev.contains(keys.last()) {
            prev
        } else {
            prev.push(keys.last())
        }
    }
}

/// The mesh of `keys` once de-duplicated: `vertices` holds each distinct
/// vertex once, in order of first occurrence, and `indices[i]` is the
/// position in `vertices` of `keys[i]`.
pub open spec fn is_dedup_of(keys: Seq<VertexKey>, vertices: Seq<VertexKey>, indices: Seq<u32>) -> bool {
    &&& vertices == distinct_vertices(keys)
    &&& indices.len() == keys.len()
    &&& forall|i: int|
        0 <= i < keys.len() ==> (#[trigger] indices[i]) < vertices.len() && vertices[indices[i] as int]
            == keys[i]
}

proof fn lemma_distinct_no_duplicates(keys: Seq<VertexKey>)
    ensures
        distinct_vertices(keys).no_duplicates(),
        forall|v: VertexKey| distinct_vertices(keys).contains(v) <==> keys.contains(v),
        distinct_vertices(keys).len() <= keys.len(),
    decreases keys.len(),
{
    if keys.len() > 0 {
        let rest = keys.drop_last();
        lemma_distinct_no_duplicates(rest);
        assert forall|v: VertexKey| keys.contains(v) <==> (rest.contains(v) || v == keys.last()) by {
            if keys.contains(v) {
                let i = choose|i: int| 0 <= i < keys.len() && keys[i] == v;
                if i < keys.len() - 1 {
                    assert(rest[i] == v);
                }
            }
            if rest.contains(v) {
                let i = choose|i: int| 0 <= i < rest.len() && rest[i] == v;
                assert(keys[i] == v);
            }
            if v == keys.last() {
                assert(keys[keys.len() - 1] == v);
            }
        }
        let prev = distinct_vertices(rest);
        if !prev.contains(keys.last()) {
            let next = prev.push(keys.last());
            assert forall|v: VertexKey| next.contains(v) <==> (prev.contains(v) || v == keys.last()) by {
                if next.contains(v) {
                    let i = choose|i: int| 0 <= i < next.len() && next[i] == v;
                    if i < prev.len() {
                        assert(prev[i] == v);
                    }
                }
                if prev.contains(v) {
                    let i = choose|i: int| 0 <= i < prev.len() && prev[i] == v;
                    assert(next[i] == v);
                }
                if v == keys.last() {
                    assert(next[prev.len() as int] == v);
                }
            }
        }
    }
}

/// The position of `v` in `vertices`, which holds each vertex at most once.
fn position_of(vertices: &Vec<VertexKey>, v: &VertexKey) -> (r: Option<usize>)
    ensures
        r is None <==> !vertices@.contains(*v),
        r is Some ==> r->0 < vertices@.len() && vertices@[r->0 as int] == *v,
{
    let mut i: usize = 0;
    while i < vertices.len()
        invariant
            i <= vertices@.len(),
            forall|j: int| 0 <= j < i ==> vertices@[j] != *v,
        decreases vertices@.len() - i,
    {
        if vertices[i] == *v {
            return Some(i);
        }
        i += 1;
    }
    None
}

/// Stores each distinct vertex of `keys` once, in order of first occurrence,
/// and lists for each of `keys` the position of its vertex.
pub fn dedup_vertices(keys: &Vec<VertexKey>) -> (r: (Vec<VertexKey>, Vec<u32>))
    requires
        keys@.len() <= u32::MAX,
    ensures
        is_dedup_of(keys@, r.0@, r.1@),
        r.0@.no_duplicates(),
{
    let mut vertices: Vec<VertexKey> = Vec::new();
    let mut indices: Vec<u32> = Vec::new();
    let mut i: usize = 0;
    while i < keys.len()
        invariant
            i <= keys@.len() <= u32::MAX,
            is_dedup_of(keys@.take(i as int), vertices@, indices@),
        decreases keys@.len() - i,
    {
        let k = keys[i];
        proof {
            lemma_distinct_no_duplicates(keys@.take(i as int));
            assert(keys@.take(i as int + 1).drop_last() =~= keys@.take(i as int));
            assert(keys@.take(i as int + 1).last() == k);
        }
        match position_of(&vertices, &k) {
            Some(p) => {
                indices.push(p as u32);
            },
            None => {
                let n = vertices.len();
                vertices.push(k);
                indices.push(n as u32);
            },
        }
        proof {
            assert forall|j: int| 0 <= j < i + 1 implies (#[trigger] indices@[j]) < vertices@.len()
                && vertices@[indices@[j] as int] == keys@.take(i as int + 1)[j] by {
                if j < i {
                    assert(keys@.take(i as int)[j] == keys@.take(i as int + 1)[j]);
                }
            }
        }
        i += 1;
    }
    proof {
        assert(keys@.take(keys@.len() as int) =~= keys@);
        lemma_distinct_no_duplicates(keys@);
    }
    (vertices, indices)
}

} // verus!
