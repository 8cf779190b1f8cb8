//! Optional-value handling: fallible lookup and fallible construction.
//!
//! A lookup over a resource list answers present-or-absent, never a stray
//! read; construction of a resource rejects malformed arguments with an
//! explicit error value that the caller must branch on.

use vstd::prelude::*;

verus! {

/// A labeled resource with an identifying number.
#[derive(Debug, PartialEq, Eq)]
pub struct Resource {
    pub id: i32,
    pub name: String,
}

impl Clone for Resource {
    /// A clone carries the same identifier and label.
    fn clone(&self) -> (r: Self)
        ensures
            r == *self,
    {
        Resource { id: self.id, name: self.name.clone() }
    }
}

impl Resource {
    /// Builds a resource with exactly the given identifier and label.
    pub fn new(id: i32, name: &str) -> (r: Resource)
        ensures
            r.id == id,
            r.name@ == name@,
    {
        Resource { id, name: name.to_string() }
    }

    /// Whether this resource qualifies for processing: only identifiers
    /// above five do.
    pub fn qualifies_for_processing(&self) -> (r: bool)
        ensures
            r == (self.id > 5),
    {
        self.id > 5
    }
}

/// Whether some entry of `rs` carries the identifier `id`.
pub open spec fn has_id(rs: Seq<Resource>, id: i32) -> bool {
    exists|i: int| 0 <= i < rs.len() && rs[i].id == id
}

/// Searches the list for the first resource with the given identifier:
/// present exactly when some entry carries it, absent otherwise — an absent
/// answer touches no resource at all.
pub fn find_resource_by_id<'a>(resources: &'a [Resource], target_id: i32) -> (r: Option<
    &'a Resource,
>)
    ensures
        r is Some <==> has_id(resources@, target_id),
        r matches Some(res) ==> exists|i: int|
            0 <= i < resources@.len() && resources@[i] == *res && resources@[i].id == target_id
                && forall|j: int| 0 <= j < i ==> resources@[j].id != target_id,
{
    let mut i: usize = 0;
    while i < resources.len()
        invariant
            i <= resources@.len(),
            forall|j: int| 0 <= j < i ==> resources@[j].id != target_id,
        decreases resources@.len() - i,
    {
        if resources[i].id == target_id {
            return Some(&resources[i]);
        }
        i = i + 1;
    }
    None
}

/// Why a resource could not be built.
#[derive(Debug, Clone, Copy, PartialEq, Eq, Structural)]
pub enum CreateError {
    /// The identifier was zero or negative.
    NonPositiveId,
    /// The label was empty.
    EmptyName,
}

impl CreateError {
    /// The diagnostic a caller prints for this rejection.
    pub fn message(&self) -> (r: String)
        ensures
            *self == CreateError::NonPositiveId ==> r@ == "Invalid ID: must be positive"@,
            *self == CreateError::EmptyName ==> r@ == "Invalid name: cannot be empty"@,
    {
        match self {
            CreateError::NonPositiveId => "Invalid ID: must be positive".to_string(),
            CreateError::EmptyName => "Invalid name: cannot be empty".to_string(),
        }
    }
}

/// Fallible construction: a resource exists exactly for a positive
/// identifier and a nonempty label. A nonpositive identifier is rejected
/// first, then an empty label; a well-formed pair builds exactly the asked
/// resource.
pub fn try_create_resource(id: i32, name: &str) -> (r: Result<Resource, CreateError>)
    ensures
        id <= 0 ==> r == Result::<Resource, CreateError>::Err(CreateError::NonPositiveId),
        id > 0 && name@.len() == 0 ==> r == Result::<Resource, CreateError>::Err(
            CreateError::EmptyName,
        ),
        id > 0 && name@.len() > 0 ==> (r matches Ok(res) && res.id == id && res.name@ == name@),
{
    if id <= 0 {
        Err(CreateError::NonPositiveId)
    } else if name.is_empty() {
        Err(CreateError::EmptyName)
    } else {
        Ok(Resource::new(id, name))
    }
}

/// Lookup with a default: the first resource carrying the identifier when
/// one is present, otherwise the stand-in resource with identifier zero and
/// the label `Default`.
pub fn find_resource_or_default(resources: &[Resource], target_id: i32) -> (r: Resource)
    ensures
        has_id(resources@, target_id) ==> exists|i: int|
            0 <= i < resources@.len() && resources@[i] == r && resources@[i].id == target_id
                && forall|j: int| 0 <= j < i ==> resources@[j].id != target_id,
        !has_id(resources@, target_id) ==> r.id == 0 && r.name@ == "Default"@,
{
    match find_resource_by_id(resources, target_id) {
        Some(res) => res.clone(),
        None => Resource::new(0, "Default"),
    }
}

/// Fallible construction with a fallback: the asked resource when the
/// arguments are well formed, otherwise the stand-in resource with
/// identifier one and the label `Fallback`.
pub fn create_or_fallback(id: i32, name: &str) -> (r: Resource)
    ensures
        id > 0 && name@.len() > 0 ==> r.id == id && r.name@ == name@,
        !(id > 0 && name@.len() > 0) ==> r.id == 1 && r.name@ == "Fallback"@,
{
    match try_create_resource(id, name) {
        Ok(res) => res,
        Err(_) => Resource::new(1, "Fallback"),
    }
}

/// The resources present among optional slots, in slot order.
pub open spec fn present_values(slots: Seq<Option<Resource>>) -> Seq<Resource>
    decreases slots.len(),
{
    if slots.len() == 0 {
        Seq::empty()
    } else {
        let rest = present_values(slots.drop_last());
        match slots.last() {
            Some(res) => rest.push(res),
            None => rest,
        }
    }
}

/// Collects the resources present among the slots, keeping slot order and
/// skipping every empty slot.
pub fn collect_present(slots: &Vec<Option<Resource>>) -> (r: Vec<Resource>)
    ensures
        r@ == present_values(slots@),
{
    let mut out: Vec<Resource> = Vec::new();
    let mut i: usize = 0;
    while i < slots.len()
        invariant
            i <= slots@.len(),
            out@ == present_values(slots@.subrange(0, i as int)),
        decreases slots@.len() - i,
    {
        match &slots[i] {
            Some(res) => {
                out.push(res.clone());
            },
            None => {},
        }
        i = i + 1;
        proof {
            assert(slots@.subrange(0, i as int).drop_last() =~= slots@.subrange(0, i - 1));
        }
    }
    proof {
        assert(slots@.subrange(0, slots@.len() as int) =~= slots@);
    }
    out
}

/// A container that may or may not hold a resource.
pub struct Container {
    pub resource: Option<Resource>,
}

impl Container {
    /// The held resource's label, when one is held.
    pub fn get_resource_name(&self) -> (r: Option<&String>)
        ensures
            match self.resource {
                Some(res) => r matches Some(n) && *n == res.name,
                None => r is None,
            },
    {
        match &self.resource {
            Some(res) => Some(&res.name),
            None => None,
        }
    }

    /// The held resource's identifier, when one is held.
    pub fn get_resource_id(&self) -> (r: Option<i32>)
        ensures
            match self.resource {
                Some(res) => r == Some(res.id),
                None => r is None,
            },
    {
        match &self.resource {
            Some(res) => Some(res.id),
            None => None,
        }
    }

    /// Label and identifier together, exactly when a resource is held: the
    /// pair a report line is formatted from.
    pub fn resource_info(&self) -> (r: Option<(String, i32)>)
        ensures
            match self.resource {
                Some(res) => r matches Some(p) && p.0 == res.name && p.1 == res.id,
                None => r is None,
            },
    {
        match &self.resource {
            Some(res) => Some((res.name.clone(), res.id)),
            None => None,
        }
    }
}

} // verus!
