//! Finding the entities that one entity of the registry collides with.

use vstd::prelude::*;
use crate::engine::graphics::internal_object::graphics_object::ObjectView;
use crate::engine::graphics::util::master_graphics_list::MasterGraphicsList;

verus! {

/// A collision between two entities of the registry, by their names.
#[derive(Debug, PartialEq, Eq)]
pub struct CollisionEvent {
    pub object_name_1: String,
    pub object_name_2: String,
}

impl View for CollisionEvent {
    type V = (Seq<char>, Seq<char>);

    open spec fn view(&self) -> (Seq<char>, Seq<char>) {
        (self.object_name_1@, self.object_name_2@)
    }
}

/// The names among `names` whose entity collides with `subject`, in their
/// order, without the name `skip`.
pub open spec fn colliding_names(
    subject: ObjectView,
    skip: Seq<char>,
    names: Seq<Seq<char>>,
    entries: Seq<ObjectView>,
) -> Seq<Seq<char>>
    decreases names.len(),
{
    if names.len() == 0 {
        Seq::empty()
    } else {
        let earlier = colliding_names(subject, skip, names.drop_last(), entries.drop_last());
        if names.last() != skip && subject.collides(entries.last()) {
            earlier.push(names.last())
        } else {
            earlier
        }
    }
}

/// A name is reported exactly when it stands in the list, is not the name
/// to skip, and its entity collides with the subject.
pub proof fn lemma_colliding_names(
    subject: ObjectView,
    skip: Seq<char>,
    names: Seq<Seq<char>>,
    entries: Seq<ObjectView>,
    name: Seq<char>,
)
    requires
        names.len() == entries.len(),
    ensures
        colliding_names(subject, skip, names, entries).contains(name) <==> (name != skip && exists|
            i: int,
        | 0 <= i < names.len() && names[i] == name && subject.collides(#[trigger] entries[i])),
    decreases names.len(),
{
    let found = colliding_names(subject, skip, names, entries);
    if names.len() > 0 {
        let earlier = colliding_names(subject, skip, names.drop_last(), entries.drop_last());
        lemma_colliding_names(subject, skip, names.drop_last(), entries.drop_last(), name);
        let last = names.len() - 1;
        if found.contains(name) {
            let at = choose|at: int| 0 <= at < found.len() && found[at] == name;
            if at < earlier.len() {
                assert(earlier[at] == name);
                assert(earlier.contains(name));
                let i = choose|i: int|
                    0 <= i < names.drop_last().len() && names.drop_last()[i] == name && subject.collides(
                        #[trigger] entries.drop_last()[i],
                    );
                assert(names[i] == name && subject.collides(entries[i]));
            } else {
                assert(names[last] == name && subject.collides(entries[last]));
            }
        }
        if name != skip && exists|i: int|
            0 <= i < names.len() && names[i] == name && subject.collides(#[trigger] entries[i]) {
            let i = choose|i: int|
                0 <= i < names.len() && names[i] == name && subject.collides(#[trigger] entries[i]);
            if i < last {
                assert(names.drop_last()[i] == name && subject.collides(entries.drop_last()[i]));
                assert(earlier.contains(name));
                let at = choose|at: int| 0 <= at < earlier.len() && earlier[at] == name;
                assert(found[at] == name);
            } else {
                assert(found[found.len() - 1] == name);
            }
        }
    }
}

/// The collisions of the entity under `object_name` with the other entities
/// of the registry, in the registry's order. A name that the registry does
/// not hold has no collisions.
pub fn check_collisions(master_graphics_list: &MasterGraphicsList, object_name: &str) -> (events: Vec<
    CollisionEvent,
>)
    requires
        master_graphics_list.well_formed(),
    ensures
        !master_graphics_list@.contains_key(object_name@) ==> events@.len() == 0,
        master_graphics_list@.contains_key(object_name@) ==> events@.map_values(
            |event: CollisionEvent| event@,
        ) == colliding_names(
            master_graphics_list@[object_name@],
            object_name@,
            master_graphics_list.names(),
            master_graphics_list.entries(),
        ).map_values(|name: Seq<char>| (object_name@, name)),
{
    let mut events: Vec<CollisionEvent> = Vec::new();
    match master_graphics_list.get_object(object_name) {
        Some(subject) => {
            let key = object_name.to_owned();
            let count = master_graphics_list.len();
            let ghost names = master_graphics_list.names();
            let ghost entries = master_graphics_list.entries();
            let mut i: usize = 0;
            assert(names.take(0).len() == 0);
            while i < count
                invariant
                    i <= count,
                    count == names.len(),
                    count == entries.len(),
                    key@ == object_name@,
                    names == master_graphics_list.names(),
                    entries == master_graphics_list.entries(),
                    events@.map_values(|event: CollisionEvent| event@) == colliding_names(
                        subject@,
                        object_name@,
                        names.take(i as int),
                        entries.take(i as int),
                    ).map_values(|name: Seq<char>| (object_name@, name)),
                decreases count - i,
            {
                let name = master_graphics_list.name_at(i);
                let other = master_graphics_list.object_at(i);
                let ghost earlier = colliding_names(
                    subject@,
                    object_name@,
                    names.take(i as int),
                    entries.take(i as int),
                );
                proof {
                    assert(names.take(i + 1).drop_last() =~= names.take(i as int));
                    assert(entries.take(i + 1).drop_last() =~= entries.take(i as int));
                    assert(names.take(i + 1).last() == name@);
                    assert(entries.take(i + 1).last() == other@);
                }
                if !(*name == key) && subject.is_colliding(other) {
                    let ghost before = events@;
                    let event = CollisionEvent { object_name_1: key.clone(), object_name_2: name.clone() };
                    events.push(event);
                    assert(events@.map_values(|event: CollisionEvent| event@) =~= before.map_values(
                        |event: CollisionEvent| event@,
                    ).push((object_name@, name@)));
                    assert(earlier.push(name@).map_values(|name: Seq<char>| (object_name@, name))
                        =~= earlier.map_values(|name: Seq<char>| (object_name@, name)).push(
                        (object_name@, name@),
                    ));
                }
                i += 1;
            }
            assert(names.take(i as int) =~= names);
            assert(entries.take(i as int) =~= entries);
        },
        None => {},
    }
    events
}

} // verus!
