//! In-memory document model for a 2D diagram editor: shapes, connectors
//! between shapes, and diagram-wide settings, with a mutation contract that
//! keeps connectors consistent with the shapes they reference.
//!
//! Floating-point quantities (positions, extents, rotation, stroke width,
//! grid size) are held as their IEEE-754 bit patterns: the store moves them
//! around but never computes with them.
pub mod factory;
pub mod laws;
pub mod model;
pub mod store;

pub use model::{
    Connector, Diagram, DiagramError, DiagramModel, DiagramSettings, FloatBits, Shape, ShapePatch,
    ShapeType,
};
pub use store::DiagramEngine;
pub use factory::{create_default_shape, default_shape};
pub use laws::{
    lemma_add_shapes_in_order, lemma_delete_shape_cascades,
    lemma_delete_shape_keeps_connectors_attached, lemma_other_mutations_keep_connectors_attached,
    lemma_update_keeps_ids_and_kinds,
};
