use vstd::prelude::*;

use crate::errors::UiError;

verus! {

/// The texture-coordinate indices of a mesh, taken three at a time: triangle `k`
/// gets indices `3k`, `3k + 1` and `3k + 2`. A last group of fewer than three is
/// dropped.
pub open spec fn uv_groups(indices: Seq<u32>) -> Seq<(u32, u32, u32)> {
    Seq::new(
        indices.len() / 3,
        |k: int| (indices[3 * k], indices[3 * k + 1], indices[3 * k + 2]),
    )
}

/// Splits the texture-coordinate indices read from an OBJ file into one triple per
/// triangle of the mesh. The file fits the mesh when it holds exactly one full triple
/// per triangle (a trailing incomplete group is ignored); otherwise the unwrap is
/// refused with `BadUVError`.
pub fn group_uv_indices(tex_coord_indices: &Vec<u32>, polygon_count: usize) -> (r: Result<
    Vec<(u32, u32, u32)>,
    UiError,
>)
    ensures
        r is Ok <==> tex_coord_indices@.len() / 3 == polygon_count,
        r is Err ==> r == Err::<Vec<(u32, u32, u32)>, UiError>(UiError::BadUVError),
        r matches Ok(groups) ==> groups@ == uv_groups(tex_coord_indices@),
{
    let ghost s = tex_coord_indices@;
    let n = tex_coord_indices.len();
    let mut current: Vec<u32> = Vec::new();
    let mut groups: Vec<(u32, u32, u32)> = Vec::new();
    let mut i: usize = 0;
    while i < n
        invariant
            s == tex_coord_indices@,
            n == s.len(),
            i <= n,
            groups@.len() == i / 3,
            groups@.len() <= polygon_count,
            current@.len() == i % 3,
            forall|j: int| 0 <= j < current@.len() ==> #[trigger] current@[j] == s[3 * (i / 3) + j],
            forall|k: int|
                0 <= k < groups@.len() ==> #[trigger] groups@[k] == (s[3 * k], s[3 * k + 1], s[3 * k
                    + 2]),
        decreases n - i,
    {
        current.push(tex_coord_indices[i]);
        if current.len() == 3 {
            if groups.len() >= polygon_count {
                assert((i + 1) / 3 <= n / 3);
                return Err(UiError::BadUVError);
            }
            let ghost k = groups@.len() as int;
            groups.push((current[0], current[1], current[2]));
            assert(groups@[k] == (s[3 * k], s[3 * k + 1], s[3 * k + 2]));
            current.clear();
        }
        i = i + 1;
    }
    if groups.len() != polygon_count {
        return Err(UiError::BadUVError);
    }
    assert(groups@ =~= uv_groups(s));
    Ok(groups)
}

/// The triangles get the file's indices unchanged and in order: triangle `k` holds
/// indices `3k`, `3k + 1` and `3k + 2`, there is one triangle per full triple, and
/// laying the triangles end to end gives back the indices up to the last full triple.
pub proof fn lemma_uv_groups_keep_indices(indices: Seq<u32>)
    ensures
        uv_groups(indices).len() == indices.len() / 3,
        forall|k: int|
            0 <= k < indices.len() / 3 ==> {
                &&& (#[trigger] uv_groups(indices)[k]).0 == indices[3 * k]
                &&& uv_groups(indices)[k].1 == indices[3 * k + 1]
                &&& uv_groups(indices)[k].2 == indices[3 * k + 2]
            },
        forall|j: int|
            0 <= j < 3 * (indices.len() / 3) ==> #[trigger] indices[j] == if j % 3 == 0 {
                uv_groups(indices)[j / 3].0
            } else if j % 3 == 1 {
                uv_groups(indices)[j / 3].1
            } else {
                uv_groups(indices)[j / 3].2
            },
{
    assert forall|j: int| 0 <= j < 3 * (indices.len() / 3) implies #[trigger] indices[j] == if j
        % 3 == 0 {
        uv_groups(indices)[j / 3].0
    } else if j % 3 == 1 {
        uv_groups(indices)[j / 3].1
    } else {
        uv_groups(indices)[j / 3].2
    } by {
        let k = j / 3;
        assert(0 <= k < indices.len() / 3);
        assert(j == 3 * k + j % 3);
    }
}

} // verus!
