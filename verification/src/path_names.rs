//! Paths as the bytes of their file-system names, compared the way
//! `std::path::Path` compares them: component by component, so repeated
//! separators, a trailing separator and `.` components after the first
//! position make no difference. Also the chain of files being imported,
//! which guards against circular imports.

use vstd::prelude::*;

verus! {

/// The byte of the path separator `/`.
pub const SEPARATOR: u8 = 47;

/// The byte of `.`.
pub const DOT: u8 = 46;

/// The pieces of `s` between separators, empty pieces included.
pub open spec fn split_slash(s: Seq<u8>) -> Seq<Seq<u8>>
    decreases s.len(),
{
    if s.len() == 0 {
        seq![Seq::empty()]
    } else {
        let parts = split_slash(s.drop_last());
        if s.last() == SEPARATOR {
            parts.push(Seq::empty())
        } else {
            parts.update(parts.len() - 1, parts.last().push(s.last()))
        }
    }
}

/// Splitting yields at least one piece.
pub proof fn lemma_split_slash_nonempty(s: Seq<u8>)
    ensures
        split_slash(s).len() >= 1,
    decreases s.len(),
{
    if s.len() > 0 {
        lemma_split_slash_nonempty(s.drop_last());
    }
}

/// Whether the piece at position `i` is a component: it is not empty, and
/// it is not a `.` after the first position.
pub open spec fn is_component(piece: Seq<u8>, i: int) -> bool {
    piece.len() > 0 && !(piece == seq![DOT] && i > 0)
}

/// The pieces that are components, in order.
pub open spec fn components_of(pieces: Seq<Seq<u8>>) -> Seq<Seq<u8>>
    decreases pieces.len(),
{
    if pieces.len() == 0 {
        Seq::empty()
    } else {
        let rest = components_of(pieces.drop_last());
        if is_component(pieces.last(), pieces.len() - 1) {
            rest.push(pieces.last())
        } else {
            rest
        }
    }
}

/// What two equal paths share: a root marker (the one-byte piece `/`, which
/// no component can be) when the path is absolute, then its components.
pub open spec fn path_key(p: Seq<u8>) -> Seq<Seq<u8>> {
    let root: Seq<Seq<u8>> = if p.len() > 0 && p[0] == SEPARATOR {
        seq![seq![SEPARATOR]]
    } else {
        Seq::empty()
    };
    root + components_of(split_slash(p))
}

/// The views of a list of byte strings.
pub open spec fn bytes_view(v: Seq<Vec<u8>>) -> Seq<Seq<u8>> {
    v.map_values(|p: Vec<u8>| p@)
}

fn split_slash_exec(p: &Vec<u8>) -> (r: Vec<Vec<u8>>)
    ensures
        bytes_view(r@) == split_slash(p@),
{
    let mut pieces: Vec<Vec<u8>> = Vec::new();
    let mut cur: Vec<u8> = Vec::new();
    let mut i: usize = 0;
    assert(p@.take(0) =~= Seq::<u8>::empty());
    assert(bytes_view(pieces@).push(cur@) =~= seq![Seq::<u8>::empty()]);
    while i < p.len()
        invariant
            i <= p@.len(),
            bytes_view(pieces@).push(cur@) == split_slash(p@.take(i as int)),
        decreases p@.len() - i,
    {
        let c = p[i];
        proof {
            assert(p@.take(i as int + 1).drop_last() =~= p@.take(i as int));
            assert(p@.take(i as int + 1).last() == c);
            lemma_split_slash_nonempty(p@.take(i as int));
        }
        if c == SEPARATOR {
            let ghost before = bytes_view(pieces@);
            let mut done: Vec<u8> = Vec::new();
            std::mem::swap(&mut done, &mut cur);
            pieces.push(done);
            assert(bytes_view(pieces@) =~= before.push(done@));
        } else {
            let ghost before = cur@;
            cur.push(c);
            assert(bytes_view(pieces@).push(cur@) =~= bytes_view(pieces@).push(before).update(
                pieces@.len() as int,
                before.push(c),
            ));
        }
        i = i + 1;
    }
    let ghost before = bytes_view(pieces@);
    pieces.push(cur);
    assert(p@.take(p@.len() as int) =~= p@);
    assert(bytes_view(pieces@) =~= before.push(pieces@[pieces@.len() - 1]@));
    pieces
}

fn is_dot(piece: &Vec<u8>) -> (r: bool)
    ensures
        r == (piece@ == seq![DOT]),
{
    if piece.len() == 1 && piece[0] == DOT {
        assert(piece@ =~= seq![DOT]);
        true
    } else {
        false
    }
}

/// The key of a path: its root marker and components, as `path_key`.
pub fn path_components(p: &Vec<u8>) -> (r: Vec<Vec<u8>>)
    ensures
        bytes_view(r@) == path_key(p@),
{
    let pieces = split_slash_exec(p);
    let mut out: Vec<Vec<u8>> = Vec::new();
    let rooted = p.len() > 0 && p[0] == SEPARATOR;
    if rooted {
        let mut marker: Vec<u8> = Vec::new();
        marker.push(SEPARATOR);
        out.push(marker);
    }
    let ghost root: Seq<Seq<u8>> = if rooted {
        seq![seq![SEPARATOR]]
    } else {
        Seq::empty()
    };
    let ghost pv = bytes_view(pieces@);
    assert(bytes_view(out@) =~= root + components_of(pv.take(0)));
    let mut i: usize = 0;
    while i < pieces.len()
        invariant
            i <= pieces@.len(),
            pv == bytes_view(pieces@),
            bytes_view(out@) == root + components_of(pv.take(i as int)),
        decreases pieces@.len() - i,
    {
        assert(pv.take(i as int + 1).drop_last() =~= pv.take(i as int));
        assert(pv.take(i as int + 1).last() == pieces@[i as int]@);
        let piece = &pieces[i];
        if piece.len() > 0 && !(is_dot(piece) && i > 0) {
            let ghost before = bytes_view(out@);
            let mut copy: Vec<u8> = Vec::new();
            let mut j: usize = 0;
            while j < piece.len()
                invariant
                    j <= piece@.len(),
                    copy@ == piece@.take(j as int),
                decreases piece@.len() - j,
            {
                copy.push(piece[j]);
                assert(piece@.take(j as int + 1) =~= piece@.take(j as int).push(piece@[j as int]));
                j = j + 1;
            }
            assert(piece@.take(piece@.len() as int) =~= piece@);
            out.push(copy);
            assert(bytes_view(out@) =~= before.push(piece@));
        }
        i = i + 1;
    }
    assert(pv.take(pieces@.len() as int) =~= pv);
    out
}

fn same_pieces(a: &Vec<Vec<u8>>, b: &Vec<Vec<u8>>) -> (r: bool)
    ensures
        r == (bytes_view(a@) == bytes_view(b@)),
{
    if a.len() != b.len() {
        assert(bytes_view(a@).len() != bytes_view(b@).len());
        return false;
    }
    let mut i: usize = 0;
    while i < a.len()
        invariant
            a@.len() == b@.len(),
            i <= a@.len(),
            forall|j: int| 0 <= j < i ==> a@[j]@ == b@[j]@,
        decreases a@.len() - i,
    {
        let x = &a[i];
        let y = &b[i];
        if x.len() != y.len() {
            assert(bytes_view(a@)[i as int] != bytes_view(b@)[i as int]);
            return false;
        }
        let mut k: usize = 0;
        while k < x.len()
            invariant
                a@.len() == b@.len(),
                0 <= i < a@.len(),
                *x == a@[i as int],
                *y == b@[i as int],
                x@.len() == y@.len(),
                k <= x@.len(),
                forall|m: int| 0 <= m < k ==> x@[m] == y@[m],
            decreases x@.len() - k,
        {
            if x[k] != y[k] {
                assert(bytes_view(a@)[i as int][k as int] != bytes_view(b@)[i as int][k as int]);
                return false;
            }
            k = k + 1;
        }
        assert(x@ =~= y@);
        i = i + 1;
    }
    assert(bytes_view(a@) =~= bytes_view(b@));
    true
}

/// Whether two paths name the same path, component by component.
pub fn paths_equal(a: &Vec<u8>, b: &Vec<u8>) -> (r: bool)
    ensures
        r == (path_key(a@) == path_key(b@)),
{
    let ka = path_components(a);
    let kb = path_components(b);
    same_pieces(&ka, &kb)
}

/// The keys of a list of paths.
pub open spec fn keys_of(v: Seq<Seq<u8>>) -> Seq<Seq<Seq<u8>>> {
    v.map_values(|p: Seq<u8>| path_key(p))
}

/// Whether some path of a list equals `path`.
pub fn holds_path(list: &Vec<Vec<u8>>, path: &Vec<u8>) -> (r: bool)
    ensures
        r == keys_of(bytes_view(list@)).contains(path_key(path@)),
{
    let mut i: usize = 0;
    while i < list.len()
        invariant
            i <= list@.len(),
            forall|j: int| 0 <= j < i ==> path_key(list@[j]@) != path_key(path@),
        decreases list@.len() - i,
    {
        if paths_equal(&list[i], path) {
            assert(keys_of(bytes_view(list@))[i as int] == path_key(path@));
            return true;
        }
        i = i + 1;
    }
    proof {
        if keys_of(bytes_view(list@)).contains(path_key(path@)) {
            let j = choose|j: int|
                0 <= j < keys_of(bytes_view(list@)).len() && keys_of(bytes_view(list@))[j]
                    == path_key(path@);
            assert(path_key(list@[j]@) == path_key(path@));
        }
    }
    false
}

/// Enters an imported file: records `path` at the end of the chain of files
/// being loaded, unless it is already in the chain, which is a circular
/// import. Returns whether it was entered.
pub fn enter_import(chain: &mut Vec<Vec<u8>>, path: &Vec<u8>) -> (r: bool)
    ensures
        r <==> !keys_of(bytes_view(old(chain)@)).contains(path_key(path@)),
        r ==> bytes_view(final(chain)@) == bytes_view(old(chain)@).push(path@),
        !r ==> final(chain)@ == old(chain)@,
{
    if holds_path(chain, path) {
        return false;
    }
    let ghost before = bytes_view(chain@);
    chain.push(path.clone());
    assert(bytes_view(chain@) =~= before.push(path@));
    true
}

/// Leaves the file last entered.
pub fn leave_import(chain: &mut Vec<Vec<u8>>)
    requires
        old(chain)@.len() > 0,
    ensures
        final(chain)@ == old(chain)@.drop_last(),
{
    chain.pop();
}

} // verus!
