//! Materials: their kinds, their cutting parameters, and the database that
//! holds them by name.

pub mod speeds_feeds;

use vstd::prelude::*;
use crate::text::{chars_of, same};

pub use speeds_feeds::{CalculatorError, SpeedsFeedsCalculator, SpeedsFeedsResult, ToolMaterial, ToolSpec};

verus! {

/// Kind of a material.
#[derive(Debug, Clone, Copy, PartialEq, Eq, Structural)]
pub enum MaterialType {
    Wood,
    Plastic,
    Metal,
    Acrylic,
    Fabric,
    Paper,
    Rubber,
    Stone,
    Glass,
    Leather,
}

impl MaterialType {
    /// All kinds of material.
    pub fn all() -> (r: Vec<MaterialType>)
        ensures
            r@ == seq![
                MaterialType::Wood,
                MaterialType::Plastic,
                MaterialType::Metal,
                MaterialType::Acrylic,
                MaterialType::Fabric,
                MaterialType::Paper,
                MaterialType::Rubber,
                MaterialType::Stone,
                MaterialType::Glass,
                MaterialType::Leather,
            ],
    {
        let mut r: Vec<MaterialType> = Vec::new();
        r.push(MaterialType::Wood);
        r.push(MaterialType::Plastic);
        r.push(MaterialType::Metal);
        r.push(MaterialType::Acrylic);
        r.push(MaterialType::Fabric);
        r.push(MaterialType::Paper);
        r.push(MaterialType::Rubber);
        r.push(MaterialType::Stone);
        r.push(MaterialType::Glass);
        r.push(MaterialType::Leather);
        r
    }

    /// The name of the kind.
    pub fn as_str(&self) -> (r: &'static str)
        ensures
            r@ == match *self {
                MaterialType::Wood => "Wood"@,
                MaterialType::Plastic => "Plastic"@,
                MaterialType::Metal => "Metal"@,
                MaterialType::Acrylic => "Acrylic"@,
                MaterialType::Fabric => "Fabric"@,
                MaterialType::Paper => "Paper"@,
                MaterialType::Rubber => "Rubber"@,
                MaterialType::Stone => "Stone"@,
                MaterialType::Glass => "Glass"@,
                MaterialType::Leather => "Leather"@,
            },
    {
        match self {
            MaterialType::Wood => "Wood",
            MaterialType::Plastic => "Plastic",
            MaterialType::Metal => "Metal",
            MaterialType::Acrylic => "Acrylic",
            MaterialType::Fabric => "Fabric",
            MaterialType::Paper => "Paper",
            MaterialType::Rubber => "Rubber",
            MaterialType::Stone => "Stone",
            MaterialType::Glass => "Glass",
            MaterialType::Leather => "Leather",
        }
    }
}

/// Properties of a material for cutting and engraving.
#[derive(Debug)]
pub struct Material {
    pub name: String,
    pub material_type: MaterialType,
    /// Feed rate in thousandths of a millimetre per minute.
    pub feed_rate: u64,
    /// Spindle speed in RPM.
    pub spindle_speed: u32,
    /// Depth of cut per pass in thousandths of a millimetre.
    pub cut_depth: u64,
    /// Laser power in percent.
    pub laser_power: u32,
    pub description: String,
}

impl Clone for Material {
    fn clone(&self) -> (r: Material)
        ensures
            r == *self,
    {
        Material {
            name: self.name.clone(),
            material_type: self.material_type,
            feed_rate: self.feed_rate,
            spindle_speed: self.spindle_speed,
            cut_depth: self.cut_depth,
            laser_power: self.laser_power,
            description: self.description.clone(),
        }
    }
}

impl Material {
    /// A material without a description.
    pub fn new(
        name: String,
        material_type: MaterialType,
        feed_rate: u64,
        spindle_speed: u32,
        cut_depth: u64,
        laser_power: u32,
    ) -> (r: Material)
        ensures
            r.name == name,
            r.material_type == material_type,
            r.feed_rate == feed_rate,
            r.spindle_speed == spindle_speed,
            r.cut_depth == cut_depth,
            r.laser_power == laser_power,
            r.description@ == Seq::<char>::empty(),
    {
        Material {
            name,
            material_type,
            feed_rate,
            spindle_speed,
            cut_depth,
            laser_power,
            description: String::new(),
        }
    }

    /// The material with the given description.
    pub fn with_description(self, desc: String) -> (r: Material)
        ensures
            r == (Material { description: desc, ..self }),
    {
        let mut m = self;
        m.description = desc;
        m
    }
}

/// A material under the name it is kept by.
#[derive(Debug)]
pub struct MaterialEntry {
    pub key: String,
    pub material: Material,
}

impl Clone for MaterialEntry {
    fn clone(&self) -> (r: MaterialEntry)
        ensures
            r == *self,
    {
        MaterialEntry { key: self.key.clone(), material: self.material.clone() }
    }
}

/// Index of the first entry at or after `i` that is kept under `key`.
pub open spec fn entry_at(entries: Seq<MaterialEntry>, key: Seq<char>, i: int) -> Option<int>
    decreases entries.len() - i,
{
    if i < 0 || i >= entries.len() {
        None
    } else if entries[i].key@ == key {
        Some(i)
    } else {
        entry_at(entries, key, i + 1)
    }
}

/// The entries after a material was put under a name: it takes the place of
/// the material that was kept under the name, and the place behind all
/// others when none was.
pub open spec fn with_entry(entries: Seq<MaterialEntry>, e: MaterialEntry) -> Seq<MaterialEntry> {
    match entry_at(entries, e.key@, 0) {
        Some(i) => entries.update(i, e),
        None => entries.push(e),
    }
}

/// The entries without the one kept under a name.
pub open spec fn without_entry(entries: Seq<MaterialEntry>, key: Seq<char>) -> Seq<MaterialEntry> {
    match entry_at(entries, key, 0) {
        Some(i) => entries.remove(i),
        None => entries,
    }
}

/// Whether no two entries are kept under one name.
pub open spec fn distinct_keys(entries: Seq<MaterialEntry>) -> bool {
    forall|i: int, j: int|
        0 <= i < j < entries.len() ==> (#[trigger] entries[i]).key@ != (#[trigger] entries[j]).key@
}

/// The materials of the given kind among the first `k` entries, in order.
pub open spec fn of_type_upto(entries: Seq<MaterialEntry>, t: MaterialType, k: int) -> Seq<
    Material,
>
    decreases k,
{
    if k <= 0 || k > entries.len() {
        Seq::empty()
    } else if entries[k - 1].material.material_type == t {
        of_type_upto(entries, t, k - 1).push(entries[k - 1].material)
    } else {
        of_type_upto(entries, t, k - 1)
    }
}

/// Where the search for a name ends: at the first entry kept under it, or
/// nowhere when no entry is.
pub proof fn lemma_entry_at(entries: Seq<MaterialEntry>, key: Seq<char>, i: int)
    requires
        0 <= i <= entries.len(),
    ensures
        match entry_at(entries, key, i) {
            Some(k) => i <= k < entries.len() && entries[k].key@ == key && forall|j: int|
                i <= j < k ==> (#[trigger] entries[j]).key@ != key,
            None => forall|j: int| i <= j < entries.len() ==> (#[trigger] entries[j]).key@ != key,
        },
    decreases entries.len() - i,
{
    if i < entries.len() && entries[i].key@ != key {
        lemma_entry_at(entries, key, i + 1);
    }
}

/// Putting a material under a name and removing one keep the names distinct.
pub proof fn lemma_keys_stay_distinct(entries: Seq<MaterialEntry>, e: MaterialEntry)
    requires
        distinct_keys(entries),
    ensures
        distinct_keys(with_entry(entries, e)),
        distinct_keys(without_entry(entries, e.key@)),
        entry_at(without_entry(entries, e.key@), e.key@, 0) is None,
        entry_at(with_entry(entries, e), e.key@, 0) is Some,
        with_entry(entries, e)[entry_at(with_entry(entries, e), e.key@, 0)->0] == e,
{
    lemma_entry_at(entries, e.key@, 0);
    let a = with_entry(entries, e);
    let b = without_entry(entries, e.key@);
    lemma_entry_at(a, e.key@, 0);
    lemma_entry_at(b, e.key@, 0);
    match entry_at(entries, e.key@, 0) {
        Some(k) => {
            assert forall|i: int, j: int| 0 <= i < j < b.len() implies (#[trigger] b[i]).key@ != (
            #[trigger] b[j]).key@ by {
                let x = if i < k {
                    i
                } else {
                    i + 1
                };
                let y = if j < k {
                    j
                } else {
                    j + 1
                };
                assert(b[i] == entries[x]);
                assert(b[j] == entries[y]);
            }
            assert forall|j: int| 0 <= j < b.len() implies (#[trigger] b[j]).key@ != e.key@ by {
                let y = if j < k {
                    j
                } else {
                    j + 1
                };
                assert(b[j] == entries[y]);
                if y > k {
                    assert(entries[k].key@ != entries[y].key@);
                }
            }
            assert(a[k] == e);
            assert forall|i: int, j: int| 0 <= i < j < a.len() implies (#[trigger] a[i]).key@ != (
            #[trigger] a[j]).key@ by {
                assert(a[i].key@ == entries[i].key@);
                assert(a[j].key@ == entries[j].key@);
            }
        },
        None => {
            assert(a.last() == e);
            assert forall|i: int, j: int| 0 <= i < j < a.len() implies (#[trigger] a[i]).key@ != (
            #[trigger] a[j]).key@ by {
                assert(a[i] == entries[i]);
                if j < entries.len() {
                    assert(a[j] == entries[j]);
                }
            }
        },
    }
}

/// Whether an entry is kept under `name` and holds the material of that
/// name with the given properties.
pub open spec fn is_entry(
    e: MaterialEntry,
    name: Seq<char>,
    material_type: MaterialType,
    feed_rate: u64,
    spindle_speed: u32,
    cut_depth: u64,
    laser_power: u32,
    description: Seq<char>,
) -> bool {
    &&& e.key@ == name
    &&& e.material.name@ == name
    &&& e.material.material_type == material_type
    &&& e.material.feed_rate == feed_rate
    &&& e.material.spindle_speed == spindle_speed
    &&& e.material.cut_depth == cut_depth
    &&& e.material.laser_power == laser_power
    &&& e.material.description@ == description
}

/// Whether the entries are the default materials, in their order.
pub open spec fn are_defaults(entries: Seq<MaterialEntry>) -> bool {
    &&& entries.len() == 7
    &&& is_entry(entries[0], "Wood (Soft)"@, MaterialType::Wood, 1000000, 1500, 3000, 80, "Pine, Basswood, Balsa"@)
    &&& is_entry(entries[1], "Wood (Hard)"@, MaterialType::Wood, 600000, 1200, 2000, 90, "Oak, Maple, Walnut"@)
    &&& is_entry(entries[2], "Acrylic"@, MaterialType::Acrylic, 800000, 1800, 2500, 70, "Cast and extruded acrylic"@)
    &&& is_entry(entries[3], "Plastic (PVC)"@, MaterialType::Plastic, 600000, 1500, 1500, 60, "PVC and similar plastics"@)
    &&& is_entry(entries[4], "Metal (Aluminum)"@, MaterialType::Metal, 500000, 2000, 1000, 100, "Aluminum alloys"@)
    &&& is_entry(entries[5], "Leather"@, MaterialType::Leather, 800000, 1000, 500, 50, "Natural leather"@)
    &&& is_entry(entries[6], "Fabric (Cotton)"@, MaterialType::Fabric, 900000, 1200, 1000, 40, "Natural cotton fabrics"@)
}

/// The default materials have names of their own.
proof fn lemma_default_names_differ()
    ensures
        "Wood (Soft)"@ != "Wood (Hard)"@,
        "Wood (Soft)"@ != "Acrylic"@,
        "Wood (Soft)"@ != "Plastic (PVC)"@,
        "Wood (Soft)"@ != "Metal (Aluminum)"@,
        "Wood (Soft)"@ != "Leather"@,
        "Wood (Soft)"@ != "Fabric (Cotton)"@,
        "Wood (Hard)"@ != "Acrylic"@,
        "Wood (Hard)"@ != "Plastic (PVC)"@,
        "Wood (Hard)"@ != "Metal (Aluminum)"@,
        "Wood (Hard)"@ != "Leather"@,
        "Wood (Hard)"@ != "Fabric (Cotton)"@,
        "Acrylic"@ != "Plastic (PVC)"@,
        "Acrylic"@ != "Metal (Aluminum)"@,
        "Acrylic"@ != "Leather"@,
        "Acrylic"@ != "Fabric (Cotton)"@,
        "Plastic (PVC)"@ != "Metal (Aluminum)"@,
        "Plastic (PVC)"@ != "Leather"@,
        "Plastic (PVC)"@ != "Fabric (Cotton)"@,
        "Metal (Aluminum)"@ != "Leather"@,
        "Metal (Aluminum)"@ != "Fabric (Cotton)"@,
        "Leather"@ != "Fabric (Cotton)"@,
{
    reveal_strlit("Wood (Soft)");
    reveal_strlit("Wood (Hard)");
    reveal_strlit("Acrylic");
    reveal_strlit("Plastic (PVC)");
    reveal_strlit("Metal (Aluminum)");
    reveal_strlit("Leather");
    reveal_strlit("Fabric (Cotton)");
    assert("Wood (Soft)"@[6] != "Wood (Hard)"@[6]);
    assert("Wood (Soft)"@.len() != "Acrylic"@.len());
    assert("Wood (Soft)"@.len() != "Plastic (PVC)"@.len());
    assert("Wood (Soft)"@.len() != "Metal (Aluminum)"@.len());
    assert("Wood (Soft)"@.len() != "Leather"@.len());
    assert("Wood (Soft)"@.len() != "Fabric (Cotton)"@.len());
    assert("Wood (Hard)"@.len() != "Acrylic"@.len());
    assert("Wood (Hard)"@.len() != "Plastic (PVC)"@.len());
    assert("Wood (Hard)"@.len() != "Metal (Aluminum)"@.len());
    assert("Wood (Hard)"@.len() != "Leather"@.len());
    assert("Wood (Hard)"@.len() != "Fabric (Cotton)"@.len());
    assert("Acrylic"@.len() != "Plastic (PVC)"@.len());
    assert("Acrylic"@.len() != "Metal (Aluminum)"@.len());
    assert("Acrylic"@[0] != "Leather"@[0]);
    assert("Acrylic"@.len() != "Fabric (Cotton)"@.len());
    assert("Plastic (PVC)"@.len() != "Metal (Aluminum)"@.len());
    assert("Plastic (PVC)"@.len() != "Leather"@.len());
    assert("Plastic (PVC)"@.len() != "Fabric (Cotton)"@.len());
    assert("Metal (Aluminum)"@.len() != "Leather"@.len());
    assert("Metal (Aluminum)"@.len() != "Fabric (Cotton)"@.len());
    assert("Leather"@.len() != "Fabric (Cotton)"@.len());
}

fn same_text(a: &str, b: &str) -> (r: bool)
    ensures
        r == (a@ == b@),
{
    same(&chars_of(a), &chars_of(b))
}

/// The materials at hand, by name.
#[derive(Debug)]
pub struct MaterialDatabase {
    pub entries: Vec<MaterialEntry>,
}

impl MaterialDatabase {
    /// A database with the default materials.
    pub fn new() -> (r: MaterialDatabase)
        ensures
            are_defaults(r.entries@),
            distinct_keys(r.entries@),
    {
        let mut db = MaterialDatabase { entries: Vec::new() };
        db.load_defaults();
        db
    }

    /// A database without materials.
    pub fn empty() -> (r: MaterialDatabase)
        ensures
            r.entries@ == Seq::<MaterialEntry>::empty(),
    {
        MaterialDatabase { entries: Vec::new() }
    }

    /// Puts a material that the database does not hold yet behind the others.
    fn add_default(
        &mut self,
        name: &str,
        material_type: MaterialType,
        feed_rate: u64,
        spindle_speed: u32,
        cut_depth: u64,
        laser_power: u32,
        description: &str,
    )
        requires
            forall|j: int| 0 <= j < old(self).entries@.len() ==> (#[trigger] old(self).entries@[j]).key@ != name@,
        ensures
            final(self).entries@.len() == old(self).entries@.len() + 1,
            forall|j: int| 0 <= j < old(self).entries@.len() ==> #[trigger] final(self).entries@[j] == old(self).entries@[j],
            is_entry(
                final(self).entries@.last(),
                name@,
                material_type,
                feed_rate,
                spindle_speed,
                cut_depth,
                laser_power,
                description@,
            ),
    {
        let material = Material::new(
            name.to_owned(),
            material_type,
            feed_rate,
            spindle_speed,
            cut_depth,
            laser_power,
        ).with_description(description.to_owned());
        proof {
            lemma_entry_at(self.entries@, name@, 0);
        }
        self.add_material(material);
    }

    fn load_defaults(&mut self)
        requires
            old(self).entries@.len() == 0,
        ensures
            are_defaults(final(self).entries@),
            distinct_keys(final(self).entries@),
    {
        proof {
            lemma_default_names_differ();
        }
        self.add_default("Wood (Soft)", MaterialType::Wood, 1000000, 1500, 3000, 80, "Pine, Basswood, Balsa");
        proof {
            assert(self.entries@[0].key@ == "Wood (Soft)"@);
        }
        self.add_default("Wood (Hard)", MaterialType::Wood, 600000, 1200, 2000, 90, "Oak, Maple, Walnut");
        proof {
            assert(self.entries@[0].key@ == "Wood (Soft)"@);
            assert(self.entries@[1].key@ == "Wood (Hard)"@);
        }
        self.add_default("Acrylic", MaterialType::Acrylic, 800000, 1800, 2500, 70, "Cast and extruded acrylic");
        proof {
            assert(self.entries@[0].key@ == "Wood (Soft)"@);
            assert(self.entries@[1].key@ == "Wood (Hard)"@);
            assert(self.entries@[2].key@ == "Acrylic"@);
        }
        self.add_default("Plastic (PVC)", MaterialType::Plastic, 600000, 1500, 1500, 60, "PVC and similar plastics");
        proof {
            assert(self.entries@[0].key@ == "Wood (Soft)"@);
            assert(self.entries@[1].key@ == "Wood (Hard)"@);
            assert(self.entries@[2].key@ == "Acrylic"@);
            assert(self.entries@[3].key@ == "Plastic (PVC)"@);
        }
        self.add_default("Metal (Aluminum)", MaterialType::Metal, 500000, 2000, 1000, 100, "Aluminum alloys");
        proof {
            assert(self.entries@[0].key@ == "Wood (Soft)"@);
            assert(self.entries@[1].key@ == "Wood (Hard)"@);
            assert(self.entries@[2].key@ == "Acrylic"@);
            assert(self.entries@[3].key@ == "Plastic (PVC)"@);
            assert(self.entries@[4].key@ == "Metal (Aluminum)"@);
        }
        self.add_default("Leather", MaterialType::Leather, 800000, 1000, 500, 50, "Natural leather");
        proof {
            assert(self.entries@[0].key@ == "Wood (Soft)"@);
            assert(self.entries@[1].key@ == "Wood (Hard)"@);
            assert(self.entries@[2].key@ == "Acrylic"@);
            assert(self.entries@[3].key@ == "Plastic (PVC)"@);
            assert(self.entries@[4].key@ == "Metal (Aluminum)"@);
            assert(self.entries@[5].key@ == "Leather"@);
        }
        self.add_default("Fabric (Cotton)", MaterialType::Fabric, 900000, 1200, 1000, 40, "Natural cotton fabrics");
        proof {
            assert(self.entries@[0].key@ == "Wood (Soft)"@);
            assert(self.entries@[1].key@ == "Wood (Hard)"@);
            assert(self.entries@[2].key@ == "Acrylic"@);
            assert(self.entries@[3].key@ == "Plastic (PVC)"@);
            assert(self.entries@[4].key@ == "Metal (Aluminum)"@);
            assert(self.entries@[5].key@ == "Leather"@);
            assert(self.entries@[6].key@ == "Fabric (Cotton)"@);
        }
    }

    /// Index of the entry kept under `key`.
    fn find_entry(&self, key: &str) -> (r: Option<usize>)
        ensures
            match r {
                Some(i) => entry_at(self.entries@, key@, 0) == Some(i as int) && i
                    < self.entries@.len(),
                None => entry_at(self.entries@, key@, 0) is None,
            },
    {
        let mut i: usize = 0;
        while i < self.entries.len()
            invariant
                i <= self.entries@.len(),
                entry_at(self.entries@, key@, i as int) == entry_at(self.entries@, key@, 0),
            decreases self.entries@.len() - i,
        {
            if same_text(self.entries[i].key.as_str(), key) {
                return Some(i);
            }
            i += 1;
        }
        None
    }

    fn put(&mut self, key: String, material: Material)
        ensures
            final(self).entries@ == with_entry(old(self).entries@, MaterialEntry { key, material }),
            distinct_keys(old(self).entries@) ==> distinct_keys(final(self).entries@),
            final(self).entries@.len() <= old(self).entries@.len() + 1,
    {
        proof {
            if distinct_keys(self.entries@) {
                lemma_keys_stay_distinct(self.entries@, MaterialEntry { key, material });
            }
        }
        match self.find_entry(key.as_str()) {
            Some(i) => {
                self.entries.set(i, MaterialEntry { key, material });
            },
            None => {
                self.entries.push(MaterialEntry { key, material });
            },
        }
    }

    /// Puts a material into the database under its name, in place of the
    /// material that was kept under that name.
    pub fn add_material(&mut self, material: Material)
        ensures
            final(self).entries@ == with_entry(
                old(self).entries@,
                MaterialEntry { key: material.name, material },
            ),
            distinct_keys(old(self).entries@) ==> distinct_keys(final(self).entries@),
            final(self).entries@.len() <= old(self).entries@.len() + 1,
    {
        let key = material.name.clone();
        self.put(key, material);
    }

    /// The material kept under a name.
    pub fn get_material(&self, name: &str) -> (r: Option<&Material>)
        ensures
            match r {
                Some(m) => entry_at(self.entries@, name@, 0) is Some && *m
                    == self.entries@[entry_at(self.entries@, name@, 0)->0].material,
                None => entry_at(self.entries@, name@, 0) is None,
            },
    {
        match self.find_entry(name) {
            Some(i) => Some(&self.entries[i].material),
            None => None,
        }
    }

    /// The materials of the given kind, in the order they are kept.
    pub fn get_by_type(&self, mat_type: MaterialType) -> (r: Vec<Material>)
        ensures
            r@ == of_type_upto(self.entries@, mat_type, self.entries@.len() as int),
    {
        let mut r: Vec<Material> = Vec::new();
        let mut i: usize = 0;
        while i < self.entries.len()
            invariant
                i <= self.entries@.len(),
                r@ == of_type_upto(self.entries@, mat_type, i as int),
            decreases self.entries@.len() - i,
        {
            if self.entries[i].material.material_type == mat_type {
                r.push(self.entries[i].material.clone());
            }
            i += 1;
        }
        r
    }

    /// The names that materials are kept under, in the order they are kept.
    pub fn list_materials(&self) -> (r: Vec<String>)
        ensures
            r@.len() == self.entries@.len(),
            forall|i: int| 0 <= i < r@.len() ==> #[trigger] r@[i] == self.entries@[i].key,
    {
        let mut r: Vec<String> = Vec::new();
        let mut i: usize = 0;
        while i < self.entries.len()
            invariant
                i <= self.entries@.len(),
                r@.len() == i,
                forall|k: int| 0 <= k < i ==> #[trigger] r@[k] == self.entries@[k].key,
            decreases self.entries@.len() - i,
        {
            r.push(self.entries[i].key.clone());
            i += 1;
        }
        r
    }

    /// The number of materials.
    pub fn count(&self) -> (r: usize)
        ensures
            r == self.entries@.len(),
    {
        self.entries.len()
    }

    /// Takes the material kept under a name out of the database.
    pub fn remove_material(&mut self, name: &str) -> (r: Option<Material>)
        ensures
            final(self).entries@ == without_entry(old(self).entries@, name@),
            match r {
                Some(m) => entry_at(old(self).entries@, name@, 0) is Some && m == old(self).entries@[entry_at(old(self).entries@, name@, 0)->0].material,
                None => entry_at(old(self).entries@, name@, 0) is None,
            },
    {
        match self.find_entry(name) {
            Some(i) => {
                let e = self.entries.remove(i);
                Some(e.material)
            },
            None => None,
        }
    }

    /// Puts a material in place of the one kept under a name, under that
    /// name. Tells whether one was kept under it; if none was, nothing
    /// changes.
    pub fn update_material(&mut self, name: &str, material: Material) -> (r: bool)
        ensures
            r == entry_at(old(self).entries@, name@, 0) is Some,
            !r ==> final(self).entries@ == old(self).entries@,
            r ==> final(self).entries@.len() == old(self).entries@.len() && final(self).entries@[entry_at(old(self).entries@, name@, 0)->0].material == material
                && final(self).entries@[entry_at(old(self).entries@, name@, 0)->0].key@ == name@
                && forall|j: int|
                0 <= j < old(self).entries@.len() && j != entry_at(old(self).entries@, name@, 0)->0
                    ==> #[trigger] final(self).entries@[j] == old(self).entries@[j],
    {
        match self.find_entry(name) {
            Some(i) => {
                self.entries.set(i, MaterialEntry { key: name.to_owned(), material });
                true
            },
            None => false,
        }
    }
}

impl Clone for MaterialDatabase {
    fn clone(&self) -> (r: MaterialDatabase)
        ensures
            r.entries@ == self.entries@,
    {
        let mut entries: Vec<MaterialEntry> = Vec::new();
        let mut i: usize = 0;
        while i < self.entries.len()
            invariant
                i <= self.entries@.len(),
                entries@ == self.entries@.take(i as int),
            decreases self.entries@.len() - i,
        {
            entries.push(self.entries[i].clone());
            proof {
                assert(self.entries@.take(i + 1) == self.entries@.take(i as int).push(
                    self.entries@[i as int],
                ));
            }
            i += 1;
        }
        MaterialDatabase { entries }
    }
}

impl Default for MaterialDatabase {
    fn default() -> (r: MaterialDatabase)
        ensures
            are_defaults(r.entries@),
            distinct_keys(r.entries@),
    {
        MaterialDatabase::new()
    }
}

} // verus!
