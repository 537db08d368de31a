//! Catchable items: their prefab identifiers, their balance data loaded
//! from `balance/items.json`, and the per-entity hue shift of randomly
//! coloured fish.
use vstd::prelude::*;
use vstd::string::StringExecFns;
use vstd::wrapping::u64_specs;

verus! {

/// Marker shared by every backpack item.
#[derive(Clone, Copy, Debug, PartialEq, Eq, Default)]
pub struct Item;

/// The prefab an item entity was made from, by its identifier.
#[derive(Clone, Debug, PartialEq, Eq)]
pub struct PrefabId(pub String);

/// Every prefab of the game.
#[derive(Clone, Copy, Debug, PartialEq, Eq, Hash, Structural)]
pub enum PrefabList {
    Journal,
    BitBass,
    CodeE,
    FinTech,
    SideSwimmer,
    DeepLearn,
    MissEel,
    DepthCarp,
    ReefEr,
    HowitzPerch,
    Target1,
    Target2,
    Target3,
    Kai,
}

/// The identifier of a prefab: its variant name in snake case.
pub open spec fn prefab_name(p: PrefabList) -> Seq<char> {
    match p {
        PrefabList::Journal => "journal"@,
        PrefabList::BitBass => "bit_bass"@,
        PrefabList::CodeE => "code_e"@,
        PrefabList::FinTech => "fin_tech"@,
        PrefabList::SideSwimmer => "side_swimmer"@,
        PrefabList::DeepLearn => "deep_learn"@,
        PrefabList::MissEel => "miss_eel"@,
        PrefabList::DepthCarp => "depth_carp"@,
        PrefabList::ReefEr => "reef_er"@,
        PrefabList::HowitzPerch => "howitz_perch"@,
        PrefabList::Target1 => "target1"@,
        PrefabList::Target2 => "target2"@,
        PrefabList::Target3 => "target3"@,
        PrefabList::Kai => "kai"@,
    }
}

/// Every prefab, in declaration order.
pub open spec fn all_prefabs() -> Seq<PrefabList> {
    seq![
        PrefabList::Journal,
        PrefabList::BitBass,
        PrefabList::CodeE,
        PrefabList::FinTech,
        PrefabList::SideSwimmer,
        PrefabList::DeepLearn,
        PrefabList::MissEel,
        PrefabList::DepthCarp,
        PrefabList::ReefEr,
        PrefabList::HowitzPerch,
        PrefabList::Target1,
        PrefabList::Target2,
        PrefabList::Target3,
        PrefabList::Kai,
    ]
}

/// Whether two texts are equal.
pub fn same_text(a: &str, b: &str) -> (r: bool)
    ensures
        r == (a@ == b@),
{
    let x = String::from_str(a);
    let y = String::from_str(b);
    x == y
}

impl PrefabList {
    /// The identifier text of this prefab.
    pub fn name(&self) -> (r: &'static str)
        ensures
            r@ == prefab_name(*self),
    {
        match self {
            PrefabList::Journal => "journal",
            PrefabList::BitBass => "bit_bass",
            PrefabList::CodeE => "code_e",
            PrefabList::FinTech => "fin_tech",
            PrefabList::SideSwimmer => "side_swimmer",
            PrefabList::DeepLearn => "deep_learn",
            PrefabList::MissEel => "miss_eel",
            PrefabList::DepthCarp => "depth_carp",
            PrefabList::ReefEr => "reef_er",
            PrefabList::HowitzPerch => "howitz_perch",
            PrefabList::Target1 => "target1",
            PrefabList::Target2 => "target2",
            PrefabList::Target3 => "target3",
            PrefabList::Kai => "kai",
        }
    }

    /// The prefab identifier used to tag item entities.
    pub fn prefab_id(&self) -> (r: PrefabId)
        ensures
            r.0@ == prefab_name(*self),
    {
        PrefabId(String::from_str(self.name()))
    }

    /// Every prefab, in declaration order.
    pub fn all() -> (v: Vec<PrefabList>)
        ensures
            v@ == all_prefabs(),
    {
        vec![
            PrefabList::Journal,
            PrefabList::BitBass,
            PrefabList::CodeE,
            PrefabList::FinTech,
            PrefabList::SideSwimmer,
            PrefabList::DeepLearn,
            PrefabList::MissEel,
            PrefabList::DepthCarp,
            PrefabList::ReefEr,
            PrefabList::HowitzPerch,
            PrefabList::Target1,
            PrefabList::Target2,
            PrefabList::Target3,
            PrefabList::Kai,
        ]
    }

    /// The prefab whose identifier is `id`, if any.
    pub fn from_id(id: &str) -> (r: Option<PrefabList>)
        ensures
            forall|p: PrefabList| (r == Some(p)) <==> prefab_name(p) == id@,
    {
        let all = PrefabList::all();
        let mut i: usize = 0;
        while i < all.len()
            invariant
                all@ == all_prefabs(),
                0 <= i <= all@.len(),
                forall|j: int| 0 <= j < i ==> prefab_name(#[trigger] all@[j]) != id@,
            decreases all.len() - i,
        {
            if same_text(all[i].name(), id) {
                proof {
                    assert forall|p: PrefabList| prefab_name(p) == id@ implies p == all@[i as int] by {
                        law_prefab_names_distinct(p, all@[i as int]);
                    }
                }
                return Some(all[i]);
            }
            i = i + 1;
        }
        proof {
            assert forall|p: PrefabList| prefab_name(p) != id@ by {
                assert(all_prefabs().contains(p)) by {
                    match p {
                        PrefabList::Journal => assert(all_prefabs()[0] == p),
                        PrefabList::BitBass => assert(all_prefabs()[1] == p),
                        PrefabList::CodeE => assert(all_prefabs()[2] == p),
                        PrefabList::FinTech => assert(all_prefabs()[3] == p),
                        PrefabList::SideSwimmer => assert(all_prefabs()[4] == p),
                        PrefabList::DeepLearn => assert(all_prefabs()[5] == p),
                        PrefabList::MissEel => assert(all_prefabs()[6] == p),
                        PrefabList::DepthCarp => assert(all_prefabs()[7] == p),
                        PrefabList::ReefEr => assert(all_prefabs()[8] == p),
                        PrefabList::HowitzPerch => assert(all_prefabs()[9] == p),
                        PrefabList::Target1 => assert(all_prefabs()[10] == p),
                        PrefabList::Target2 => assert(all_prefabs()[11] == p),
                        PrefabList::Target3 => assert(all_prefabs()[12] == p),
                        PrefabList::Kai => assert(all_prefabs()[13] == p),
                    }
                }
            }
        }
        None
    }
}

/// Balance data of one item, as listed in `balance/items.json`.
#[derive(Clone, Debug, PartialEq, Eq)]
pub struct ItemData {
    pub id: String,
    pub random_color: bool,
    pub file_path: String,
}

/// All item balance data, in file order.
#[derive(Clone, Debug, PartialEq, Eq)]
pub struct ItemDataBalance(pub Vec<ItemData>);

/// The position of the first entry with identifier `id`.
pub open spec fn first_with_id(items: Seq<ItemData>, id: Seq<char>) -> Option<int>
    decreases items.len(),
{
    if items.len() == 0 {
        None
    } else if items[0].id@ == id {
        Some(0)
    } else {
        match first_with_id(items.drop_first(), id) {
            Some(k) => Some(k + 1),
            None => None,
        }
    }
}

pub proof fn lemma_first_with_id(items: Seq<ItemData>, id: Seq<char>)
    ensures
        match first_with_id(items, id) {
            Some(k) => 0 <= k < items.len() && items[k].id@ == id && forall|j: int|
                0 <= j < k ==> items[j].id@ != id,
            None => forall|j: int| 0 <= j < items.len() ==> items[j].id@ != id,
        },
    decreases items.len(),
{
    if items.len() > 0 {
        lemma_first_with_id(items.drop_first(), id);
        if items[0].id@ != id {
            assert forall|j: int| 1 <= j < items.len() implies items[j] == items.drop_first()[j
                - 1] by {}
        }
    }
}

impl ItemDataBalance {
    /// Position of the first entry whose identifier is `id`.
    pub fn index_of(&self, id: &str) -> (r: Option<usize>)
        ensures
            match r {
                Some(k) => first_with_id(self.0@, id@) == Some(k as int),
                None => first_with_id(self.0@, id@) is None,
            },
    {
        proof {
            lemma_first_with_id(self.0@, id@);
        }
        let mut i: usize = 0;
        while i < self.0.len()
            invariant
                0 <= i <= self.0@.len(),
                forall|j: int| 0 <= j < i ==> self.0@[j].id@ != id@,
            decreases self.0.len() - i,
        {
            if same_text(self.0[i].id.as_str(), id) {
                proof {
                    lemma_first_with_id(self.0@, id@);
                    let f = first_with_id(self.0@, id@);
                    if let Some(k) = f {
                        if k > i {
                            assert(self.0@[i as int].id@ != id@);
                        }
                    }
                }
                return Some(i);
            }
            i = i + 1;
        }
        None
    }

    /// The first entry whose identifier is `id`.
    pub fn get_by_id(&self, id: &str) -> (r: Option<&ItemData>)
        ensures
            match first_with_id(self.0@, id@) {
                Some(k) => r == Some(&self.0@[k]),
                None => r is None,
            },
    {
        proof {
            lemma_first_with_id(self.0@, id@);
        }
        match self.index_of(id) {
            Some(k) => Some(&self.0[k]),
            None => None,
        }
    }
}

/// The splitmix64 finaliser applied to an entity's bits.
pub open spec fn splitmix64(bits: u64) -> u64 {
    let x0 = bits ^ 0x9e3779b97f4a7c15u64;
    let x1 = u64_specs::wrapping_mul(x0, 0xbf58476d1ce4e5b9u64);
    let x2 = x1 ^ (x1 >> 27u64);
    let x3 = u64_specs::wrapping_mul(x2, 0x94d049bb133111ebu64);
    x3 ^ (x3 >> 31u64)
}

/// One past the largest hue numerator: the hue shift is `n / 2^53`.
pub const HUE_DENOMINATOR: u64 = 0x20_0000_0000_0000;

/// The hue shift of a randomly coloured item, as a numerator over
/// `HUE_DENOMINATOR`: the top 53 bits of the entity's scrambled bits,
/// which spreads entities uniformly over `[0, 1)`.
pub open spec fn hue_numerator(bits: u64) -> u64 {
    splitmix64(bits) >> 11u64
}

/// Hue-shift numerator of the entity with bits `entity_bits`.
pub fn hue_shift_from_entity(entity_bits: u64) -> (n: u64)
    ensures
        n == hue_numerator(entity_bits),
        n < HUE_DENOMINATOR,
{
    let mut x = entity_bits ^ 0x9e3779b97f4a7c15u64;
    x = x.wrapping_mul(0xbf58476d1ce4e5b9u64);
    x = x ^ (x >> 27u64);
    x = x.wrapping_mul(0x94d049bb133111ebu64);
    x = x ^ (x >> 31u64);
    let n = x >> 11u64;
    assert(n < 0x20_0000_0000_0000u64) by (bit_vector)
        requires
            n == x >> 11u64,
    ;
    n
}

/// Hue numerator of an item entity: scrambled from the entity when its
/// balance data asks for random colours, zero (no shift) otherwise.
pub fn item_hue(data: &ItemData, entity_bits: u64) -> (n: u64)
    ensures
        n == (if data.random_color {
            hue_numerator(entity_bits)
        } else {
            0
        }),
{
    if data.random_color {
        hue_shift_from_entity(entity_bits)
    } else {
        0
    }
}

/// Identifiers of distinct prefabs differ, so an identifier names at most
/// one prefab and reading back the identifier of a prefab gives it back.
pub proof fn law_prefab_names_distinct(a: PrefabList, b: PrefabList)
    ensures
        prefab_name(a) == prefab_name(b) ==> a == b,
{
    reveal_strlit("journal");
    reveal_strlit("bit_bass");
    reveal_strlit("code_e");
    reveal_strlit("fin_tech");
    reveal_strlit("side_swimmer");
    reveal_strlit("deep_learn");
    reveal_strlit("miss_eel");
    reveal_strlit("depth_carp");
    reveal_strlit("reef_er");
    reveal_strlit("howitz_perch");
    reveal_strlit("target1");
    reveal_strlit("target2");
    reveal_strlit("target3");
    reveal_strlit("kai");
    if prefab_name(a) == prefab_name(b) && a != b {
        let x = prefab_name(a);
        let y = prefab_name(b);
        assert(x.len() == y.len());
        assert(x[0] == y[0]);
        assert(x[x.len() - 1] == y[y.len() - 1]);
        assert(x[1] == y[1]);
        assert(x[2] == y[2]);
        assert(x[4] == y[4]);
        assert(x[6] == y[6]);
    }
}

} // verus!
