use vstd::prelude::*;

use crate::model::{Connector, DiagramModel, DiagramSettings, Shape, ShapePatch};
use crate::store::{connector_detached, connector_kept, has_shape, shape_kept};

verus! {

/// Adding two shapes one after the other appends them in that order, on top
/// of what was there, and leaves the second call's time as the last update.
pub proof fn lemma_add_shapes_in_order(
    d: DiagramModel,
    s1: Shape,
    s2: Shape,
    t1: Seq<char>,
    t2: Seq<char>,
)
    ensures
        d.with_shape(s1, t1).updated_at == t1,
        d.with_shape(s1, t1).with_shape(s2, t2).shapes == d.shapes + seq![s1, s2],
        d.with_shape(s1, t1).with_shape(s2, t2).updated_at == t2,
        d.shapes.len() == 0 ==> d.with_shape(s1, t1).with_shape(s2, t2).shapes == seq![s1, s2],
{
    assert(d.with_shape(s1, t1).with_shape(s2, t2).shapes =~= d.shapes + seq![s1, s2]);
    assert(d.shapes.len() == 0 ==> d.shapes + seq![s1, s2] =~= seq![s1, s2]);
}

/// Deleting a shape leaves no shape with its id and no connector attached
/// to it; every other shape and every connector attached elsewhere stays.
pub proof fn lemma_delete_shape_cascades(d: DiagramModel, id: Seq<char>, now: Seq<char>)
    ensures
        !has_shape(d.without_shape(id, now).shapes, id),
        forall|k: int|
            0 <= k < d.without_shape(id, now).connectors.len() ==> {
                let c = #[trigger] d.without_shape(id, now).connectors[k];
                c.from_shape_id@ != id && c.to_shape_id@ != id
            },
        forall|i: int|
            0 <= i < d.shapes.len() && #[trigger] d.shapes[i].id@ != id ==> d.without_shape(
                id,
                now,
            ).shapes.contains(d.shapes[i]),
        forall|k: int|
            0 <= k < d.connectors.len() && #[trigger] d.connectors[k].from_shape_id@ != id
                && d.connectors[k].to_shape_id@ != id ==> d.without_shape(
                id,
                now,
            ).connectors.contains(d.connectors[k]),
{
    let after = d.without_shape(id, now);
    assert forall|i: int| 0 <= i < after.shapes.len() implies #[trigger] after.shapes[i].id@
        != id by {
        d.shapes.lemma_filter_pred(shape_kept(id), i);
    }
    assert forall|k: int| 0 <= k < after.connectors.len() implies {
        let c = #[trigger] after.connectors[k];
        c.from_shape_id@ != id && c.to_shape_id@ != id
    } by {
        d.connectors.lemma_filter_pred(connector_detached(id), k);
    }
    assert forall|i: int|
        0 <= i < d.shapes.len() && #[trigger] d.shapes[i].id@ != id implies after.shapes.contains(
        d.shapes[i],
    ) by {
        d.shapes.lemma_filter_contains(shape_kept(id), i);
    }
    assert forall|k: int|
        0 <= k < d.connectors.len() && #[trigger] d.connectors[k].from_shape_id@ != id
            && d.connectors[k].to_shape_id@ != id implies after.connectors.contains(
        d.connectors[k],
    ) by {
        d.connectors.lemma_filter_contains(connector_detached(id), k);
    }
}

/// A shape whose id differs from the deleted one is still found by its id.
proof fn lemma_other_shape_kept(shapes: Seq<Shape>, id: Seq<char>, other: Seq<char>)
    requires
        has_shape(shapes, other),
        other != id,
    ensures
        has_shape(shapes.filter(shape_kept(id)), other),
{
    let i = choose|i: int| 0 <= i < shapes.len() && #[trigger] shapes[i].id@ == other;
    shapes.lemma_filter_contains(shape_kept(id), i);
    let kept = shapes.filter(shape_kept(id));
    let m = choose|m: int| 0 <= m < kept.len() && kept[m] == shapes[i];
    assert(kept[m].id@ == other);
}

/// Deleting a shape keeps every connector attached: the connectors that
/// named it go with it, and every shape that the others name stays.
pub proof fn lemma_delete_shape_keeps_connectors_attached(
    d: DiagramModel,
    id: Seq<char>,
    now: Seq<char>,
)
    requires
        d.connectors_attached(),
    ensures
        d.without_shape(id, now).connectors_attached(),
{
    let after = d.without_shape(id, now);
    assert forall|k: int| 0 <= k < after.connectors.len() implies has_shape(
        after.shapes,
        #[trigger] after.connectors[k].from_shape_id@,
    ) && has_shape(after.shapes, after.connectors[k].to_shape_id@) by {
        let c = after.connectors[k];
        d.connectors.lemma_filter_pred(connector_detached(id), k);
        assert(after.connectors.contains(c));
        d.connectors.lemma_filter_contains_rev(connector_detached(id), c);
        let j = choose|j: int| 0 <= j < d.connectors.len() && d.connectors[j] == c;
        assert(has_shape(d.shapes, d.connectors[j].from_shape_id@));
        lemma_other_shape_kept(d.shapes, id, c.from_shape_id@);
        lemma_other_shape_kept(d.shapes, id, c.to_shape_id@);
    }
}

/// Updating a shape keeps the number of shapes, the id and the kind of
/// every shape, and so keeps every connector attached.
pub proof fn lemma_update_keeps_ids_and_kinds(
    d: DiagramModel,
    i: int,
    p: ShapePatch,
    now: Seq<char>,
)
    requires
        0 <= i < d.shapes.len(),
    ensures
        d.with_patch(i, p, now).shapes.len() == d.shapes.len(),
        forall|j: int|
            0 <= j < d.shapes.len() ==> (#[trigger] d.with_patch(i, p, now).shapes[j]).id
                == d.shapes[j].id && d.with_patch(i, p, now).shapes[j].shape_type
                == d.shapes[j].shape_type,
        d.connectors_attached() ==> d.with_patch(i, p, now).connectors_attached(),
{
    let after = d.with_patch(i, p, now);
    assert forall|name: Seq<char>| has_shape(d.shapes, name) implies #[trigger] has_shape(
        after.shapes,
        name,
    ) by {
        let j = choose|j: int| 0 <= j < d.shapes.len() && #[trigger] d.shapes[j].id@ == name;
        assert(after.shapes[j].id@ == name);
    }
}

/// Adding a shape or a connector, deleting a connector and replacing the
/// settings keep every connector attached, provided an added connector names
/// shapes of the diagram.
pub proof fn lemma_other_mutations_keep_connectors_attached(
    d: DiagramModel,
    s: Shape,
    c: Connector,
    connector_id: Seq<char>,
    settings: DiagramSettings,
    now: Seq<char>,
)
    requires
        d.connectors_attached(),
    ensures
        d.with_shape(s, now).connectors_attached(),
        has_shape(d.shapes, c.from_shape_id@) && has_shape(d.shapes, c.to_shape_id@)
            ==> d.with_connector(c, now).connectors_attached(),
        d.without_connector(connector_id, now).connectors_attached(),
        d.with_settings(settings, now).connectors_attached(),
{
    let grown = d.with_shape(s, now);
    assert forall|name: Seq<char>| has_shape(d.shapes, name) implies #[trigger] has_shape(
        grown.shapes,
        name,
    ) by {
        let j = choose|j: int| 0 <= j < d.shapes.len() && #[trigger] d.shapes[j].id@ == name;
        assert(grown.shapes[j].id@ == name);
    }
    let linked = d.with_connector(c, now);
    if has_shape(d.shapes, c.from_shape_id@) && has_shape(d.shapes, c.to_shape_id@) {
        assert forall|k: int| 0 <= k < linked.connectors.len() implies has_shape(
            linked.shapes,
            #[trigger] linked.connectors[k].from_shape_id@,
        ) && has_shape(linked.shapes, linked.connectors[k].to_shape_id@) by {
            if k < d.connectors.len() {
                assert(linked.connectors[k] == d.connectors[k]);
            }
        }
    }
    let shrunk = d.without_connector(connector_id, now);
    assert forall|k: int| 0 <= k < shrunk.connectors.len() implies has_shape(
        shrunk.shapes,
        #[trigger] shrunk.connectors[k].from_shape_id@,
    ) && has_shape(shrunk.shapes, shrunk.connectors[k].to_shape_id@) by {
        let x = shrunk.connectors[k];
        assert(shrunk.connectors.contains(x));
        d.connectors.lemma_filter_contains_rev(connector_kept(connector_id), x);
        let j = choose|j: int| 0 <= j < d.connectors.len() && d.connectors[j] == x;
        assert(has_shape(d.shapes, d.connectors[j].from_shape_id@));
    }
    assert(shrunk.connectors_attached());
}

} // verus!
