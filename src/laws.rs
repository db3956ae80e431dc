//! Laws of registration, stated over the maps that the registration
//! methods' contracts speak of: each registration is one `insert`.
use vstd::prelude::*;
use crate::types::OptionModel;

verus! {

/// The map after the registrations `regs`, applied in order to `m`.
pub open spec fn register_all<V>(m: Map<Seq<char>, V>, regs: Seq<(Seq<char>, V)>) -> Map<
    Seq<char>,
    V,
>
    decreases regs.len(),
{
    if regs.len() == 0 {
        m
    } else {
        register_all(m, regs.drop_last()).insert(regs.last().0, regs.last().1)
    }
}

pub open spec fn distinct_names<V>(regs: Seq<(Seq<char>, V)>) -> bool {
    forall|i: int, j: int| 0 <= i < regs.len() && 0 <= j < regs.len() && i != j ==> regs[i].0 != regs[j].0
}

/// Registrations under distinct names, starting from nothing, leave exactly
/// those names registered, each bound to what was registered under it.
pub proof fn law_distinct_registrations<V>(regs: Seq<(Seq<char>, V)>)
    requires
        distinct_names(regs),
    ensures
        forall|k: Seq<char>|
            #[trigger] register_all(Map::<Seq<char>, V>::empty(), regs).contains_key(k) <==> exists|i: int|
                0 <= i < regs.len() && regs[i].0 == k,
        forall|i: int|
            0 <= i < regs.len() ==> #[trigger] register_all(Map::<Seq<char>, V>::empty(), regs)[regs[i].0]
                == regs[i].1,
    decreases regs.len(),
{
    if regs.len() > 0 {
        let init = regs.drop_last();
        assert(distinct_names(init));
        law_distinct_registrations(init);
        let m = register_all(Map::<Seq<char>, V>::empty(), regs);
        assert forall|k: Seq<char>| #[trigger] m.contains_key(k) <==> exists|i: int|
            0 <= i < regs.len() && regs[i].0 == k by {
            if m.contains_key(k) && k != regs.last().0 {
                assert(register_all(Map::<Seq<char>, V>::empty(), init).contains_key(k));
                let i = choose|i: int| 0 <= i < init.len() && init[i].0 == k;
                assert(regs[i].0 == k);
            }
            if exists|i: int| 0 <= i < regs.len() && regs[i].0 == k {
                let i = choose|i: int| 0 <= i < regs.len() && regs[i].0 == k;
                if i < regs.len() - 1 {
                    assert(init[i].0 == k);
                    assert(register_all(Map::<Seq<char>, V>::empty(), init).contains_key(k));
                }
            }
        }
        assert forall|i: int| 0 <= i < regs.len() implies #[trigger] m[regs[i].0] == regs[i].1 by {
            if i < regs.len() - 1 {
                assert(init[i] == regs[i]);
                assert(regs[i].0 != regs.last().0);
                assert(register_all(Map::<Seq<char>, V>::empty(), init)[init[i].0] == init[i].1);
            }
        }
    }
}

/// Whatever the names, a registration that no later one repeats decides
/// what its name is bound to afterwards.
pub proof fn law_last_registration_wins<V>(m: Map<Seq<char>, V>, regs: Seq<(Seq<char>, V)>, i: int)
    requires
        0 <= i < regs.len(),
        forall|j: int| i < j < regs.len() ==> regs[j].0 != regs[i].0,
    ensures
        register_all(m, regs).contains_key(regs[i].0),
        register_all(m, regs)[regs[i].0] == regs[i].1,
    decreases regs.len(),
{
    if i < regs.len() - 1 {
        let init = regs.drop_last();
        assert(init[i] == regs[i]);
        law_last_registration_wins(m, init, i);
    }
}

/// Registering twice under one name leaves one binding for that name: the
/// second.
pub proof fn law_overwrite<V>(m: Map<Seq<char>, V>, name: Seq<char>, first: V, second: V)
    ensures
        m.insert(name, first).insert(name, second) == m.insert(name, second),
        m.insert(name, first).insert(name, second).dom() == m.dom().insert(name),
        m.insert(name, first).insert(name, second)[name] == second,
{
    assert(m.insert(name, first).insert(name, second) =~= m.insert(name, second));
}

/// Declaring the same option record twice leaves the options as one
/// declaration does: a single entry under its name.
pub proof fn law_option_idempotent(m: Map<Seq<char>, OptionModel>, o: OptionModel)
    ensures
        m.insert(o.name, o).insert(o.name, o) == m.insert(o.name, o),
        m.insert(o.name, o).insert(o.name, o)[o.name] == o,
{
    assert(m.insert(o.name, o).insert(o.name, o) =~= m.insert(o.name, o));
}

} // verus!
