//! The simulation geometry header.
//!
//! The first line of a simulation script declares either a
//! one-dimensional geometry — a list of surface identifiers, one wall
//! element each — or a three-dimensional block with one surface.
//! Identifier resolution against the parsed surface list is verified
//! here; reading and tokenizing the script is the caller's concern.

use vstd::prelude::*;

verus! {

/// The geometry header could not be resolved.
#[derive(Debug, Clone, Copy, PartialEq, Eq, Structural)]
pub enum MetaError {
    /// A named surface does not exist in the surface list.
    UnknownSurface,
    /// A three-dimensional block declares more than one surface.
    MultipleSurfaces3D,
}

/// The geometry a simulation runs on.
#[derive(Debug, Clone, PartialEq, Eq)]
pub enum Meta {
    OneDimensional { surface_ids: Vec<usize> },
    ThreeDimensional { x: usize, y: usize, z: usize, surface_id: usize },
}

/// The first index of a name in the surface list, if any.
pub open spec fn spec_name_index(names: Seq<String>, name: Seq<char>) -> Option<int>
    decreases names.len(),
{
    if names.len() == 0 {
        Option::None
    } else if names[0]@ == name {
        Option::Some(0int)
    } else {
        match spec_name_index(names.drop_first(), name) {
            Option::None => Option::None,
            Option::Some(i) => Option::Some(i + 1),
        }
    }
}

/// A found first occurrence pins `spec_name_index` down.
proof fn lemma_name_index_at(names: Seq<String>, name: Seq<char>, k: int)
    requires
        0 <= k <= names.len(),
        forall|j: int| 0 <= j < k ==> (#[trigger] names[j])@ != name,
        k == names.len() || names[k]@ == name,
    ensures
        spec_name_index(names, name) == if k == names.len() {
            Option::<int>::None
        } else {
            Option::<int>::Some(k)
        },
    decreases k,
{
    if names.len() == 0 {
    } else if k == 0 {
    } else {
        lemma_name_index_at(names.drop_first(), name, k - 1);
    }
}

/// The first index of a surface name in the surface list.
pub fn find_surface_index(names: &Vec<String>, name: &String) -> (r: Option<usize>)
    ensures
        match r {
            Option::Some(i) => spec_name_index(names@, name@) == Option::Some(i as int),
            Option::None => spec_name_index(names@, name@) is None,
        },
{
    let n = names.len();
    let mut i: usize = 0;
    while i < n
        invariant
            0 <= i <= n,
            n == names@.len(),
            forall|j: int| 0 <= j < i ==> (#[trigger] names@[j])@ != name@,
        decreases n - i,
    {
        if names[i].eq(name) {
            proof {
                lemma_name_index_at(names@, name@, i as int);
            }
            return Some(i);
        }
        i += 1;
    }
    proof {
        lemma_name_index_at(names@, name@, n as int);
    }
    None
}

impl Meta {
    /// Resolves a geometry header against the surface list. With
    /// dimensions present the header is a three-dimensional block and
    /// must name exactly one surface; without them each named surface
    /// becomes one wall element.
    pub fn try_new(
        dimensions: Option<(usize, usize, usize)>,
        meta: Vec<String>,
        surface_names: &Vec<String>,
    ) -> (r: Result<Meta, MetaError>)
        requires
            meta@.len() >= 1,
        ensures
            match r {
                Result::Ok(m) => match m {
                    Meta::ThreeDimensional { x, y, z, surface_id } => {
                        &&& dimensions == Option::Some((x, y, z))
                        &&& meta@.len() == 1
                        &&& spec_name_index(surface_names@, meta@[0]@) == Option::Some(
                            surface_id as int,
                        )
                    },
                    Meta::OneDimensional { surface_ids } => {
                        &&& dimensions is None
                        &&& surface_ids@.len() == meta@.len()
                        &&& forall|i: int|
                            0 <= i < meta@.len() ==> spec_name_index(surface_names@, meta@[i]@)
                                == Option::Some(#[trigger] surface_ids@[i] as int)
                    },
                },
                Result::Err(e) => match e {
                    MetaError::MultipleSurfaces3D => dimensions is Some && meta@.len() > 1,
                    MetaError::UnknownSurface => (dimensions is Some && meta@.len() == 1
                        && spec_name_index(surface_names@, meta@[0]@) is None) || (
                    dimensions is None && exists|i: int|
                        0 <= i < meta@.len() && spec_name_index(
                            surface_names@,
                            (#[trigger] meta@[i])@,
                        ) is None),
                },
            },
    {
        match dimensions {
            Option::Some((x, y, z)) => {
                if meta.len() > 1 {
                    return Err(MetaError::MultipleSurfaces3D);
                }
                match find_surface_index(surface_names, &meta[0]) {
                    Option::Some(surface_id) => Ok(Meta::ThreeDimensional { x, y, z, surface_id }),
                    Option::None => Err(MetaError::UnknownSurface),
                }
            },
            Option::None => {
                let n = meta.len();
                let mut surface_ids: Vec<usize> = Vec::new();
                let mut i: usize = 0;
                while i < n
                    invariant
                        dimensions is None,
                        0 <= i <= n,
                        n == meta@.len(),
                        surface_ids@.len() == i,
                        forall|j: int|
                            0 <= j < i ==> spec_name_index(surface_names@, meta@[j]@)
                                == Option::Some(#[trigger] surface_ids@[j] as int),
                    decreases n - i,
                {
                    match find_surface_index(surface_names, &meta[i]) {
                        Option::Some(surface_id) => {
                            surface_ids.push(surface_id);
                        },
                        Option::None => {
                            proof {
                                let ghost w = i as int;
                                assert(spec_name_index(surface_names@, meta@[w]@) is None);
                            }
                            return Err(MetaError::UnknownSurface);
                        },
                    }
                    i += 1;
                }
                Ok(Meta::OneDimensional { surface_ids })
            },
        }
    }
}

} // verus!
