use vstd::prelude::*;

use crate::model::{
    is_default_settings, Connector, Diagram, DiagramError, DiagramModel, DiagramSettings, Shape,
    ShapePatch,
};

verus! {

/// Keeps the shapes whose id differs from `id`.
pub open spec fn shape_kept(id: Seq<char>) -> spec_fn(Shape) -> bool {
    |s: Shape| s.id@ != id
}

/// Keeps the connectors attached to neither end of shape `id`.
pub open spec fn connector_detached(id: Seq<char>) -> spec_fn(Connector) -> bool {
    |c: Connector| c.from_shape_id@ != id && c.to_shape_id@ != id
}

/// Keeps the connectors whose id differs from `id`.
pub open spec fn connector_kept(id: Seq<char>) -> spec_fn(Connector) -> bool {
    |c: Connector| c.id@ != id
}

pub open spec fn has_shape(shapes: Seq<Shape>, id: Seq<char>) -> bool {
    exists|i: int| 0 <= i < shapes.len() && #[trigger] shapes[i].id@ == id
}

pub open spec fn has_connector(connectors: Seq<Connector>, id: Seq<char>) -> bool {
    exists|i: int| 0 <= i < connectors.len() && #[trigger] connectors[i].id@ == id
}

/// `i` is the position of the first shape with id `id`.
pub open spec fn is_first_match(shapes: Seq<Shape>, id: Seq<char>, i: int) -> bool {
    &&& 0 <= i < shapes.len()
    &&& shapes[i].id@ == id
    &&& forall|j: int| 0 <= j < i ==> #[trigger] shapes[j].id@ != id
}

/// `i` is the position of the last `true` in `hits`.
pub open spec fn is_last_hit(hits: Seq<bool>, i: int) -> bool {
    &&& 0 <= i < hits.len()
    &&& hits[i]
    &&& forall|j: int| i < j < hits.len() ==> !#[trigger] hits[j]
}

impl DiagramModel {
    /// Both ends of every connector name a shape of the diagram.
    pub open spec fn connectors_attached(self) -> bool {
        forall|k: int|
            0 <= k < self.connectors.len() ==> has_shape(
                self.shapes,
                #[trigger] self.connectors[k].from_shape_id@,
            ) && has_shape(self.shapes, self.connectors[k].to_shape_id@)
    }

    /// A fresh diagram: no shapes, no connectors, default settings, both
    /// timestamps `now`.
    pub open spec fn is_fresh(self, id: Seq<char>, name: Seq<char>, now: Seq<char>) -> bool {
        &&& self.id == id
        &&& self.name == name
        &&& self.shapes.len() == 0
        &&& self.connectors.len() == 0
        &&& is_default_settings(self.settings)
        &&& self.created_at == now
        &&& self.updated_at == now
    }

    pub open spec fn with_shape(self, s: Shape, now: Seq<char>) -> DiagramModel {
        DiagramModel { shapes: self.shapes.push(s), updated_at: now, ..self }
    }

    pub open spec fn with_patch(self, i: int, p: ShapePatch, now: Seq<char>) -> DiagramModel {
        DiagramModel {
            shapes: self.shapes.update(i, p.applied(self.shapes[i])),
            updated_at: now,
            ..self
        }
    }

    /// Shape `id` removed, together with every connector attached to it.
    pub open spec fn without_shape(self, id: Seq<char>, now: Seq<char>) -> DiagramModel {
        DiagramModel {
            shapes: self.shapes.filter(shape_kept(id)),
            connectors: self.connectors.filter(connector_detached(id)),
            updated_at: now,
            ..self
        }
    }

    pub open spec fn with_connector(self, c: Connector, now: Seq<char>) -> DiagramModel {
        DiagramModel { connectors: self.connectors.push(c), updated_at: now, ..self }
    }

    pub open spec fn without_connector(self, id: Seq<char>, now: Seq<char>) -> DiagramModel {
        DiagramModel {
            connectors: self.connectors.filter(connector_kept(id)),
            updated_at: now,
            ..self
        }
    }

    pub open spec fn with_settings(self, s: DiagramSettings, now: Seq<char>) -> DiagramModel {
        DiagramModel { settings: s, updated_at: now, ..self }
    }
}

proof fn lemma_filter_prefix<A>(s: Seq<A>, pred: spec_fn(A) -> bool, i: int)
    requires
        0 <= i < s.len(),
    ensures
        s.subrange(0, i + 1).filter(pred) == (if pred(s[i]) {
            s.subrange(0, i).filter(pred).push(s[i])
        } else {
            s.subrange(0, i).filter(pred)
        }),
{
    reveal(Seq::filter);
    assert(s.subrange(0, i + 1).drop_last() =~= s.subrange(0, i));
}

/// The diagram store: owns one diagram and applies mutations to it, each
/// either wholly or not at all.
pub struct DiagramEngine {
    diagram: Diagram,
}

impl View for DiagramEngine {
    type V = DiagramModel;

    closed spec fn view(&self) -> DiagramModel {
        self.diagram@
    }
}

impl DiagramEngine {
    /// Creates an empty diagram whose two timestamps are `now`.
    pub fn new(id: &str, name: &str, now: &str) -> (r: DiagramEngine)
        ensures
            r@.is_fresh(id@, name@, now@),
    {
        DiagramEngine {
            diagram: Diagram {
                id: id.to_owned(),
                name: name.to_owned(),
                shapes: Vec::new(),
                connectors: Vec::new(),
                settings: DiagramSettings::default(),
                created_at: now.to_owned(),
                updated_at: now.to_owned(),
            },
        }
    }

    /// Takes ownership of a whole diagram, as loaded from its external form.
    pub fn from_diagram(diagram: Diagram) -> (r: DiagramEngine)
        ensures
            r@ == diagram@,
    {
        DiagramEngine { diagram }
    }

    /// The diagram as it stands, for serialization.
    pub fn diagram(&self) -> (r: &Diagram)
        ensures
            r@ == self@,
    {
        &self.diagram
    }

    /// Removes every shape with id `shape_id` and every connector attached to
    /// such a shape. Fails with `NotFound`, changing nothing, when no shape
    /// has that id.
    pub fn delete_shape(&mut self, shape_id: &str, now: &str) -> (r: Result<(), DiagramError>)
        ensures
            r is Ok <==> has_shape(old(self)@.shapes, shape_id@),
            r is Ok ==> final(self)@ == old(self)@.without_shape(shape_id@, now@),
            r is Err ==> r == Err::<(), DiagramError>(DiagramError::NotFound) && final(self)@
                == old(self)@,
    {
        let key = shape_id.to_owned();
        let ghost shapes = self.diagram.shapes@;
        let mut kept: Vec<Shape> = Vec::new();
        let mut found = false;
        let mut i: usize = 0;
        while i < self.diagram.shapes.len()
            invariant
                self.diagram.shapes@ == shapes,
                key@ == shape_id@,
                0 <= i <= shapes.len(),
                kept@ == shapes.subrange(0, i as int).filter(shape_kept(key@)),
                found <==> exists|j: int| 0 <= j < i && #[trigger] shapes[j].id@ == key@,
            decreases shapes.len() - i,
        {
            proof {
                lemma_filter_prefix(shapes, shape_kept(key@), i as int);
            }
            if self.diagram.shapes[i].id == key {
                found = true;
            } else {
                kept.push(self.diagram.shapes[i].clone());
            }
            i = i + 1;
        }
        assert(shapes.subrange(0, shapes.len() as int) =~= shapes);
        if !found {
            return Err(DiagramError::NotFound);
        }
        let ghost connectors = self.diagram.connectors@;
        let mut attached_free: Vec<Connector> = Vec::new();
        let mut k: usize = 0;
        while k < self.diagram.connectors.len()
            invariant
                self.diagram.connectors@ == connectors,
                key@ == shape_id@,
                0 <= k <= connectors.len(),
                attached_free@ == connectors.subrange(0, k as int).filter(
                    connector_detached(key@),
                ),
            decreases connectors.len() - k,
        {
            proof {
                lemma_filter_prefix(connectors, connector_detached(key@), k as int);
            }
            let c = &self.diagram.connectors[k];
            if c.from_shape_id != key && c.to_shape_id != key {
                attached_free.push(c.clone());
            }
            k = k + 1;
        }
        assert(connectors.subrange(0, connectors.len() as int) =~= connectors);
        self.diagram.shapes = kept;
        self.diagram.connectors = attached_free;
        self.diagram.updated_at = now.to_owned();
        Ok(())
    }

    /// Appends `shape` on top of the z-order.
    pub fn add_shape(&mut self, shape: Shape, now: &str)
        ensures
            final(self)@ == old(self)@.with_shape(shape, now@),
    {
        self.diagram.shapes.push(shape);
        self.diagram.updated_at = now.to_owned();
    }

    /// Applies `patch` to the first shape with id `shape_id`. Fails with
    /// `NotFound`, changing nothing, when no shape has that id.
    pub fn update_shape(&mut self, shape_id: &str, patch: ShapePatch, now: &str) -> (r: Result<
        (),
        DiagramError,
    >)
        ensures
            r is Ok <==> has_shape(old(self)@.shapes, shape_id@),
            forall|i: int|
                is_first_match(old(self)@.shapes, shape_id@, i) ==> final(self)@ == old(
                    self,
                )@.with_patch(i, patch, now@),
            r is Err ==> r == Err::<(), DiagramError>(DiagramError::NotFound) && final(self)@
                == old(self)@,
    {
        let key = shape_id.to_owned();
        let ghost shapes = self.diagram.shapes@;
        let mut i: usize = 0;
        while i < self.diagram.shapes.len()
            invariant
                self@ == old(self)@,
                shapes == old(self)@.shapes,
                key@ == shape_id@,
                0 <= i <= shapes.len(),
                forall|j: int| 0 <= j < i ==> #[trigger] shapes[j].id@ != key@,
            decreases shapes.len() - i,
        {
            if self.diagram.shapes[i].id == key {
                proof {
                    assert forall|k: int| is_first_match(shapes, key@, k) implies k == i as int by {
                        if k > i {
                            assert(shapes[i as int].id@ == key@);
                        }
                    }
                }
                let current = self.diagram.shapes.remove(i);
                self.diagram.shapes.insert(i, patch.apply_to(current));
                assert(self.diagram.shapes@ =~= shapes.update(
                    i as int,
                    patch.applied(shapes[i as int]),
                ));
                self.diagram.updated_at = now.to_owned();
                return Ok(());
            }
            i = i + 1;
        }
        Err(DiagramError::NotFound)
    }

    /// Appends `connector`; its endpoints are not checked against the shapes.
    pub fn add_connector(&mut self, connector: Connector, now: &str)
        ensures
            final(self)@ == old(self)@.with_connector(connector, now@),
    {
        self.diagram.connectors.push(connector);
        self.diagram.updated_at = now.to_owned();
    }

    /// Removes every connector with id `connector_id`. Fails with
    /// `NotFound`, changing nothing, when no connector has that id.
    pub fn delete_connector(&mut self, connector_id: &str, now: &str) -> (r: Result<
        (),
        DiagramError,
    >)
        ensures
            r is Ok <==> has_connector(old(self)@.connectors, connector_id@),
            r is Ok ==> final(self)@ == old(self)@.without_connector(connector_id@, now@),
            r is Err ==> r == Err::<(), DiagramError>(DiagramError::NotFound) && final(self)@
                == old(self)@,
    {
        let key = connector_id.to_owned();
        let ghost connectors = self.diagram.connectors@;
        let mut kept: Vec<Connector> = Vec::new();
        let mut found = false;
        let mut i: usize = 0;
        while i < self.diagram.connectors.len()
            invariant
                self.diagram.connectors@ == connectors,
                key@ == connector_id@,
                0 <= i <= connectors.len(),
                kept@ == connectors.subrange(0, i as int).filter(connector_kept(key@)),
                found <==> exists|j: int| 0 <= j < i && #[trigger] connectors[j].id@ == key@,
            decreases connectors.len() - i,
        {
            proof {
                lemma_filter_prefix(connectors, connector_kept(key@), i as int);
            }
            if self.diagram.connectors[i].id == key {
                found = true;
            } else {
                kept.push(self.diagram.connectors[i].clone());
            }
            i = i + 1;
        }
        assert(connectors.subrange(0, connectors.len() as int) =~= connectors);
        if !found {
            return Err(DiagramError::NotFound);
        }
        self.diagram.connectors = kept;
        self.diagram.updated_at = now.to_owned();
        Ok(())
    }

    /// Replaces the settings as a whole.
    pub fn update_settings(&mut self, settings: DiagramSettings, now: &str)
        ensures
            final(self)@ == old(self)@.with_settings(settings, now@),
    {
        self.diagram.settings = settings;
        self.diagram.updated_at = now.to_owned();
    }

    /// A copy of the shapes, bottom of the z-order first.
    pub fn get_shapes(&self) -> (r: Vec<Shape>)
        ensures
            r@ == self@.shapes,
    {
        let mut out: Vec<Shape> = Vec::new();
        let mut i: usize = 0;
        while i < self.diagram.shapes.len()
            invariant
                0 <= i <= self.diagram.shapes@.len(),
                out@ == self.diagram.shapes@.subrange(0, i as int),
            decreases self.diagram.shapes@.len() - i,
        {
            out.push(self.diagram.shapes[i].clone());
            assert(out@ =~= self.diagram.shapes@.subrange(0, i + 1));
            i = i + 1;
        }
        assert(out@ =~= self.diagram.shapes@);
        out
    }

    /// A copy of the connectors, in insertion order.
    pub fn get_connectors(&self) -> (r: Vec<Connector>)
        ensures
            r@ == self@.connectors,
    {
        let mut out: Vec<Connector> = Vec::new();
        let mut i: usize = 0;
        while i < self.diagram.connectors.len()
            invariant
                0 <= i <= self.diagram.connectors@.len(),
                out@ == self.diagram.connectors@.subrange(0, i as int),
            decreases self.diagram.connectors@.len() - i,
        {
            out.push(self.diagram.connectors[i].clone());
            assert(out@ =~= self.diagram.connectors@.subrange(0, i + 1));
            i = i + 1;
        }
        assert(out@ =~= self.diagram.connectors@);
        out
    }

    /// A copy of the settings.
    pub fn get_settings(&self) -> (r: DiagramSettings)
        ensures
            r == self@.settings,
    {
        self.diagram.settings.clone()
    }

    /// Picks the topmost shape among those that `hits` marks, one flag per
    /// shape in z-order: the id of the last marked shape, or `None` when no
    /// shape is marked.
    pub fn topmost_hit(&self, hits: &Vec<bool>) -> (r: Option<String>)
        requires
            hits@.len() == self@.shapes.len(),
        ensures
            r is None <==> forall|i: int| 0 <= i < hits@.len() ==> !#[trigger] hits@[i],
            forall|i: int| is_last_hit(hits@, i) ==> r == Some(self@.shapes[i].id),
    {
        let mut i: usize = hits.len();
        while i > 0
            invariant
                hits@.len() == self.diagram.shapes@.len(),
                0 <= i <= hits@.len(),
                forall|j: int| i <= j < hits@.len() ==> !#[trigger] hits@[j],
            decreases i,
        {
            i = i - 1;
            if hits[i] {
                let id = self.diagram.shapes[i].id.clone();
                proof {
                    assert(is_last_hit(hits@, i as int));
                    assert forall|k: int| is_last_hit(hits@, k) implies k == i as int by {
                        if k < i {
                            assert(!hits@[i as int]);
                        }
                    }
                }
                return Some(id);
            }
        }
        None
    }
}

} // verus!
