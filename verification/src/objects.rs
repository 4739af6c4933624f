//! Identity of namespaced objects.

use vstd::prelude::*;

verus! {

/// Opaque unique identifier of a registered namespaced object.
///
/// Identifiers are generated by the store on first registration.  The
/// persistent layer carries them as 128-bit values.
#[derive(Clone, Copy, PartialEq, Eq, Structural, Debug)]
pub struct ObjectId {
    pub raw: u128,
}

/// Identity of a workload artifact.  The tuple
/// (cluster, namespace, object_type, object_name) maps to exactly one `id`.
#[derive(Debug, PartialEq, Eq)]
pub struct NamespacedObject {
    pub id: ObjectId,
    pub object_type: String,
    pub object_name: String,
    pub namespace: String,
    pub cluster: String,
}

/// Mathematical image of a [`NamespacedObject`]: each text field as a
/// sequence of characters.
pub struct NamespacedObjectView {
    pub id: ObjectId,
    pub object_type: Seq<char>,
    pub object_name: Seq<char>,
    pub namespace: Seq<char>,
    pub cluster: Seq<char>,
}

impl View for NamespacedObject {
    type V = NamespacedObjectView;

    open spec fn view(&self) -> NamespacedObjectView {
        NamespacedObjectView {
            id: self.id,
            object_type: self.object_type@,
            object_name: self.object_name@,
            namespace: self.namespace@,
            cluster: self.cluster@,
        }
    }
}

impl Clone for NamespacedObject {
    fn clone(&self) -> (r: Self)
        ensures
            r == *self,
    {
        NamespacedObject {
            id: self.id,
            object_type: self.object_type.clone(),
            object_name: self.object_name.clone(),
            namespace: self.namespace.clone(),
            cluster: self.cluster.clone(),
        }
    }
}

} // verus!
