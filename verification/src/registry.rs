//! The objects of the scene, in the order in which they are visited.

use vstd::prelude::*;

verus! {

/// One object of the scene.
#[derive(Clone, Copy, Debug, PartialEq, Eq, Structural)]
pub enum ObjectId {
    /// The dude.
    Dude,
    /// The moon with this number, counted in the order of placement.
    Moon(usize),
}

/// The objects of a scene: one dude and the moons. The registry knows each
/// object by its `ObjectId`; what an object holds is the caller's.
pub struct Registry {
    objects: Vec<ObjectId>,
    moons: usize,
}

impl View for Registry {
    type V = Seq<ObjectId>;

    open spec fn view(&self) -> Seq<ObjectId> {
        Self::order(self.spec_moons() as nat)
    }
}

impl Registry {
    /// The objects of a scene with `moons` moons, in the order in which they
    /// are updated and drawn: the dude, then the moons as they were placed.
    pub open spec fn order(moons: nat) -> Seq<ObjectId> {
        Seq::new(
            moons + 1,
            |i: int|
                if i == 0 {
                    ObjectId::Dude
                } else {
                    ObjectId::Moon((i - 1) as usize)
                },
        )
    }

    /// How many moons the scene has.
    pub closed spec fn spec_moons(&self) -> usize {
        self.moons
    }

    #[verifier::type_invariant]
    spec fn well_formed(&self) -> bool {
        self.objects@ == Self::order(self.moons as nat)
    }

    /// The registry of a scene with `moons` moons.
    pub fn new(moons: usize) -> (registry: Registry)
        requires
            moons < usize::MAX,
        ensures
            registry.spec_moons() == moons,
    {
        let mut objects: Vec<ObjectId> = Vec::new();
        objects.push(ObjectId::Dude);
        let mut placed: usize = 0;
        while placed < moons
            invariant
                placed <= moons,
                objects@ == Self::order(placed as nat),
            decreases moons - placed,
        {
            objects.push(ObjectId::Moon(placed));
            placed = placed + 1;
            assert(objects@ =~= Self::order(placed as nat));
        }
        Registry { objects, moons }
    }

    #[verifier::when_used_as_spec(spec_moons)]
    pub fn moons(&self) -> (moons: usize)
        ensures
            moons == self.spec_moons(),
    {
        self.moons
    }

    /// The objects in the order in which they are updated and drawn.
    pub fn objects(&self) -> (objects: &Vec<ObjectId>)
        ensures
            objects@ == self@,
    {
        proof {
            use_type_invariant(self);
        }
        &self.objects
    }
}

/// A scene has exactly one dude, and it comes first; each moon follows in
/// its place.
pub proof fn lemma_one_dude(moons: nat, i: int)
    requires
        0 <= i <= moons,
        moons < usize::MAX,
    ensures
        Registry::order(moons).len() == moons + 1,
        Registry::order(moons)[i] == ObjectId::Dude <==> i == 0,
        i > 0 ==> Registry::order(moons)[i] == ObjectId::Moon((i - 1) as usize),
{
}

/// No object is visited twice.
pub proof fn lemma_each_object_once(moons: nat, i: int, j: int)
    requires
        moons < usize::MAX,
        0 <= i <= moons,
        0 <= j <= moons,
        Registry::order(moons)[i] == Registry::order(moons)[j],
    ensures
        i == j,
{
}

} // verus!
