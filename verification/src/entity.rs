//! A minimal entity/component container: a bundle holds at most one
//! component of each kind, and a world hands out increasing entity
//! identifiers.

use vstd::prelude::*;

use crate::mesh::MeshRef;

verus! {

pub type EntityId = u32;

/// Marks an entity as the child of another.
#[derive(Debug)]
pub struct Parent(pub EntityId);

/// One attachable piece of entity state.
#[derive(Debug)]
pub enum Component {
    Parent(Parent),
    MeshRef(MeshRef),
}

/// The kinds a bundle files its components under, one slot per kind.
#[derive(Debug, Clone, Copy, PartialEq, Eq, Structural)]
pub enum ComponentKind {
    Parent,
    MeshRef,
}

/// The kind a component is filed under.
pub open spec fn kind_of(c: Component) -> ComponentKind {
    match c {
        Component::Parent(_) => ComponentKind::Parent,
        Component::MeshRef(_) => ComponentKind::MeshRef,
    }
}

/// The components attached to one entity: at most one per kind.
#[derive(Debug, Default)]
pub struct ComponentBundle {
    parent: Option<Component>,
    mesh_ref: Option<Component>,
}

impl ComponentBundle {
    /// The component filed under `kind`, as a mathematical value.
    pub closed spec fn spec_component(self, kind: ComponentKind) -> Option<Component> {
        match kind {
            ComponentKind::Parent => self.parent,
            ComponentKind::MeshRef => self.mesh_ref,
        }
    }

    /// Every slot holds a component of its own kind.
    pub closed spec fn wf(self) -> bool {
        &&& (self.parent matches Some(c) ==> kind_of(c) == ComponentKind::Parent)
        &&& (self.mesh_ref matches Some(c) ==> kind_of(c) == ComponentKind::MeshRef)
    }

    /// A bundle with nothing attached.
    pub fn new() -> (r: Self)
        ensures
            r.wf(),
            forall|k: ComponentKind| r.spec_component(k) is None,
    {
        ComponentBundle { parent: None, mesh_ref: None }
    }

    /// Attaches `component`, replacing and returning whatever the bundle
    /// held under the same kind.
    pub fn add_component(&mut self, component: Component) -> (r: Option<Component>)
        requires
            old(self).wf(),
        ensures
            final(self).wf(),
            r == old(self).spec_component(kind_of(component)),
            final(self).spec_component(kind_of(component)) == Some(component),
            forall|k: ComponentKind|
                k != kind_of(component) ==> final(self).spec_component(k) == old(
                    self,
                ).spec_component(k),
    {
        match &component {
            Component::Parent(_) => {
                let prev = self.parent.take();
                self.parent = Some(component);
                prev
            },
            Component::MeshRef(_) => {
                let prev = self.mesh_ref.take();
                self.mesh_ref = Some(component);
                prev
            },
        }
    }

    /// The component filed under `kind`, if one is attached.
    pub fn component(&self, kind: ComponentKind) -> (r: Option<&Component>)
        ensures
            match r {
                Some(c) => self.spec_component(kind) == Some(*c),
                None => self.spec_component(kind) is None,
            },
    {
        match kind {
            ComponentKind::Parent => self.parent.as_ref(),
            ComponentKind::MeshRef => self.mesh_ref.as_ref(),
        }
    }

    /// Exclusive access to the component filed under `kind`, if one is
    /// attached; the caller may rewrite it in place. A bundle stays
    /// well-formed as long as what is written back is of the same kind.
    pub fn component_mut(&mut self, kind: ComponentKind) -> (r: Option<&mut Component>)
        ensures
            (r is Some) == (old(self).spec_component(kind) is Some),
            r matches Some(c) ==> old(self).spec_component(kind) == Some(*c),
    {
        match kind {
            ComponentKind::Parent => self.parent.as_mut(),
            ComponentKind::MeshRef => self.mesh_ref.as_mut(),
        }
    }

    /// Whether a component of `kind` is attached.
    pub fn has(&self, kind: ComponentKind) -> (r: bool)
        ensures
            r == (self.spec_component(kind) is Some),
    {
        match kind {
            ComponentKind::Parent => self.parent.is_some(),
            ComponentKind::MeshRef => self.mesh_ref.is_some(),
        }
    }
}

/// The entities and their component bundles. The container is only ever
/// grown through [`World::add`], so every identifier it hands out is fresh.
#[derive(Debug, Default)]
pub struct World {
    entities: Vec<(EntityId, ComponentBundle)>,
}

impl World {
    /// The entities in insertion order, as a mathematical value.
    pub closed spec fn spec_entities(self) -> Seq<(EntityId, ComponentBundle)> {
        self.entities@
    }

    /// The identifier of the most recently added entity; zero before any.
    pub open spec fn spec_last_id(self) -> EntityId {
        if self.spec_entities().len() == 0 {
            0
        } else {
            self.spec_entities().last().0
        }
    }

    /// A world with no entities.
    pub fn new() -> (r: Self)
        ensures
            r.spec_entities() == Seq::<(EntityId, ComponentBundle)>::empty(),
    {
        World { entities: Vec::new() }
    }

    /// How many entities the world holds.
    pub fn entity_count(&self) -> (r: usize)
        ensures
            r == self.spec_entities().len(),
    {
        self.entities.len()
    }

    /// Adds an entity holding `bundle` under the next identifier: one more
    /// than the last identifier handed out.
    pub fn add(&mut self, bundle: ComponentBundle) -> (r: EntityId)
        requires
            old(self).spec_last_id() < EntityId::MAX,
        ensures
            r == old(self).spec_last_id() + 1,
            final(self).spec_entities() == old(self).spec_entities().push((r, bundle)),
    {
        let entity_id = match self.entities.last() {
            Some(last) => last.0,
            None => 0,
        } + 1;
        self.entities.push((entity_id, bundle));
        entity_id
    }
}

} // verus!
