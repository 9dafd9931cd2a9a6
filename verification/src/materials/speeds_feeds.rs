//! Speeds and feeds: the spindle speed and feed rate recommended for a
//! material and a tool, in exact arithmetic.

use vstd::prelude::*;
use crate::materials::{entry_at, of_type_upto, Material, MaterialDatabase, MaterialType};
use crate::text::{chars_of, decimal, decimal_of, extend, extend_str, string_of};

verus! {

/// Material of a tool.
#[derive(Debug, Clone, Copy, PartialEq, Eq, Structural)]
pub enum ToolMaterial {
    /// High-speed steel.
    HSS,
    /// Carbide.
    Carbide,
    /// Diamond coating.
    Diamond,
}

impl ToolMaterial {
    /// How much faster than high-speed steel the tool cuts.
    pub fn speed_factor(&self) -> (r: u32)
        ensures
            r == match *self {
                ToolMaterial::HSS => 1u32,
                ToolMaterial::Carbide => 3u32,
                ToolMaterial::Diamond => 5u32,
            },
    {
        match self {
            ToolMaterial::HSS => 1,
            ToolMaterial::Carbide => 3,
            ToolMaterial::Diamond => 5,
        }
    }
}

/// A tool.
#[derive(Debug, Clone, Copy)]
pub struct ToolSpec {
    /// Diameter in thousandths of a millimetre.
    pub diameter: u64,
    /// Number of flutes.
    pub flutes: u32,
    pub tool_material: ToolMaterial,
    /// Greatest speed that the tool can take, in RPM.
    pub max_rpm: u32,
}

/// Recommended speeds and feeds.
#[derive(Debug)]
pub struct SpeedsFeedsResult {
    /// Spindle speed in RPM.
    pub spindle_speed: u32,
    /// Feed rate in hundredths of a millimetre per minute.
    pub feed_rate: u128,
    /// Chip load per tooth in hundredths of a millimetre.
    pub chip_load: u32,
    /// Surface speed in ten-thousandths of a metre per minute.
    pub surface_speed: u64,
    /// How the recommendation was reached.
    pub notes: String,
}

/// Why no recommendation was made.
#[derive(Debug)]
pub enum CalculatorError {
    /// The database holds no material under the name.
    MaterialNotFound { name: String },
}

impl CalculatorError {
    /// The error in words.
    pub fn message(&self) -> (r: String)
        ensures
            r@ == match *self {
                CalculatorError::MaterialNotFound { name } => "Material '"@ + name@ + "' not found"@,
            },
    {
        match self {
            CalculatorError::MaterialNotFound { name } => {
                let mut t = chars_of("Material '");
                extend_str(&mut t, name.as_str());
                extend_str(&mut t, "' not found");
                string_of(&t)
            },
        }
    }
}

/// Surface speed recommended for a kind of material with a tool of
/// high-speed steel, in surface feet per minute.
pub open spec fn base_surface_speed(t: MaterialType) -> int {
    match t {
        MaterialType::Wood => 200,
        MaterialType::Plastic => 150,
        MaterialType::Acrylic => 120,
        MaterialType::Metal => 80,
        MaterialType::Leather => 100,
        MaterialType::Fabric => 100,
        MaterialType::Paper => 150,
        MaterialType::Rubber => 80,
        MaterialType::Stone => 50,
        MaterialType::Glass => 40,
    }
}

/// Chip load per tooth for a kind of material, in hundredths of a millimetre.
pub open spec fn chip_load_of(t: MaterialType) -> int {
    match t {
        MaterialType::Wood | MaterialType::Plastic | MaterialType::Acrylic => 5,
        MaterialType::Metal => 3,
        MaterialType::Leather | MaterialType::Fabric => 2,
        MaterialType::Paper | MaterialType::Rubber => 2,
        MaterialType::Stone | MaterialType::Glass => 1,
    }
}

/// How much faster than high-speed steel a tool material cuts.
pub open spec fn factor_of(m: ToolMaterial) -> int {
    match m {
        ToolMaterial::HSS => 1,
        ToolMaterial::Carbide => 3,
        ToolMaterial::Diamond => 5,
    }
}

/// Spindle speed for a surface speed in surface feet per minute and a tool:
/// 3.82 times the surface speed over the diameter in millimetres, without
/// its fraction, at most what the tool can take and at least 100. A tool
/// without diameter turns as fast as it can take.
pub open spec fn spindle_speed_of(surface_speed: int, tool: ToolSpec) -> int {
    let wanted = if tool.diameter == 0 {
        tool.max_rpm as int
    } else {
        surface_speed * 3820 / (tool.diameter as int)
    };
    let taken = if wanted > tool.max_rpm {
        tool.max_rpm as int
    } else {
        wanted
    };
    if taken < 100 {
        100
    } else {
        taken
    }
}

/// The note on a recommendation.
pub open spec fn notes_of(t: MaterialType, tool: ToolSpec) -> Seq<char> {
    "Base SFM: "@ + decimal(base_surface_speed(t) as nat) + ".0, Tool Speed Factor: "@ + decimal(
        factor_of(tool.tool_material) as nat,
    ) + ".0x, Max RPM: "@ + decimal(tool.max_rpm as nat)
}

/// Whether a recommendation is the one for a kind of material and a tool.
pub open spec fn recommended(r: SpeedsFeedsResult, t: MaterialType, tool: ToolSpec) -> bool {
    let adjusted = base_surface_speed(t) * factor_of(tool.tool_material);
    &&& r.spindle_speed == spindle_speed_of(adjusted, tool)
    &&& r.chip_load == chip_load_of(t)
    &&& r.feed_rate == chip_load_of(t) * tool.flutes * spindle_speed_of(adjusted, tool)
    &&& r.surface_speed == adjusted * 3048
    &&& r.notes@ == notes_of(t, tool)
}

/// The recommended spindle speed never goes below 100, and goes above what the
/// tool can take only to reach 100.
pub proof fn lemma_spindle_speed_bounds(surface_speed: int, tool: ToolSpec)
    ensures
        spindle_speed_of(surface_speed, tool) >= 100,
        tool.max_rpm >= 100 ==> spindle_speed_of(surface_speed, tool) <= tool.max_rpm,
        tool.max_rpm < 100 ==> spindle_speed_of(surface_speed, tool) == 100,
{
}

/// A wider tool never turns faster, and a faster surface speed never turns
/// the tool slower.
pub proof fn lemma_spindle_speed_is_monotonic(a: int, b: int, narrow: ToolSpec, wide: ToolSpec)
    requires
        0 <= a <= b,
        0 < narrow.diameter <= wide.diameter,
        narrow.max_rpm == wide.max_rpm,
    ensures
        spindle_speed_of(a, wide) <= spindle_speed_of(a, narrow),
        spindle_speed_of(a, narrow) <= spindle_speed_of(b, narrow),
{
    let n = narrow.diameter as int;
    let w = wide.diameter as int;
    assert(a * 3820 / w <= a * 3820 / n) by {
        vstd::arithmetic::div_mod::lemma_div_is_ordered_by_denominator(a * 3820, n, w);
    }
    assert(a * 3820 / n <= b * 3820 / n) by {
        vstd::arithmetic::div_mod::lemma_div_is_ordered(a * 3820, b * 3820, n);
    }
}

/// Calculator of speeds and feeds over a database of materials.
#[derive(Debug)]
pub struct SpeedsFeedsCalculator {
    pub database: MaterialDatabase,
}

fn surface_speed_sfm(t: MaterialType) -> (r: u64)
    ensures
        r == base_surface_speed(t),
{
    match t {
        MaterialType::Wood => 200,
        MaterialType::Plastic => 150,
        MaterialType::Acrylic => 120,
        MaterialType::Metal => 80,
        MaterialType::Leather => 100,
        MaterialType::Fabric => 100,
        MaterialType::Paper => 150,
        MaterialType::Rubber => 80,
        MaterialType::Stone => 50,
        MaterialType::Glass => 40,
    }
}

fn chip_load(t: MaterialType) -> (r: u32)
    ensures
        r == chip_load_of(t),
{
    match t {
        MaterialType::Wood | MaterialType::Plastic | MaterialType::Acrylic => 5,
        MaterialType::Metal => 3,
        MaterialType::Leather | MaterialType::Fabric => 2,
        MaterialType::Paper | MaterialType::Rubber => 2,
        MaterialType::Stone | MaterialType::Glass => 1,
    }
}

fn spindle_speed(surface_speed: u64, tool: &ToolSpec) -> (r: u32)
    requires
        surface_speed <= 1000,
    ensures
        r == spindle_speed_of(surface_speed as int, *tool),
{
    let wanted: u64 = if tool.diameter == 0 {
        tool.max_rpm as u64
    } else {
        surface_speed * 3820 / tool.diameter
    };
    let taken: u32 = if wanted > tool.max_rpm as u64 {
        tool.max_rpm
    } else {
        wanted as u32
    };
    if taken < 100 {
        100
    } else {
        taken
    }
}

impl SpeedsFeedsCalculator {
    /// A calculator over the given database.
    pub fn new(database: MaterialDatabase) -> (r: SpeedsFeedsCalculator)
        ensures
            r.database == database,
    {
        SpeedsFeedsCalculator { database }
    }

    /// A calculator over a copy of the given database.
    pub fn with_ref(database: &MaterialDatabase) -> (r: SpeedsFeedsCalculator)
        ensures
            r.database.entries@ == database.entries@,
    {
        SpeedsFeedsCalculator { database: database.clone() }
    }

    /// The recommendation for the material kept under a name, if one is.
    pub fn calculate(&self, material_name: &str, tool: &ToolSpec) -> (r: Result<SpeedsFeedsResult, CalculatorError>)
        ensures
            match r {
                Ok(s) => entry_at(self.database.entries@, material_name@, 0) is Some && recommended(
                    s,
                    self.database.entries@[entry_at(
                        self.database.entries@,
                        material_name@,
                        0,
                    )->0].material.material_type,
                    *tool,
                ),
                Err(CalculatorError::MaterialNotFound { name }) => entry_at(
                    self.database.entries@,
                    material_name@,
                    0,
                ) is None && name@ == material_name@,
            },
    {
        match self.database.get_material(material_name) {
            Some(material) => Ok(self.calculate_from_material(material, tool)),
            None => Err(CalculatorError::MaterialNotFound { name: material_name.to_owned() }),
        }
    }

    /// The recommendation for a material.
    pub fn calculate_from_material(&self, material: &Material, tool: &ToolSpec) -> (r: SpeedsFeedsResult)
        ensures
            recommended(r, material.material_type, *tool),
    {
        let base = surface_speed_sfm(material.material_type);
        let factor: u32 = tool.tool_material.speed_factor();
        let adjusted: u64 = base * (factor as u64);
        let speed = spindle_speed(adjusted, tool);
        let load = chip_load(material.material_type);
        assert(load as u128 * tool.flutes as u128 * speed as u128 <= 5 * 0xffff_ffff * 0xffff_ffff)
            by (nonlinear_arith)
            requires
                load <= 5,
                tool.flutes <= 0xffff_ffff,
                speed <= 0xffff_ffff,
        ;
        assert(load as u128 * tool.flutes as u128 <= 5 * 0xffff_ffff) by (nonlinear_arith)
            requires
                load <= 5,
                tool.flutes <= 0xffff_ffff,
        ;
        let per_turn: u128 = (load as u128) * (tool.flutes as u128);
        let feed_rate: u128 = per_turn * (speed as u128);

        let mut notes = chars_of("Base SFM: ");
        let base_digits = decimal_of(base as u128);
        extend(&mut notes, &base_digits);
        extend_str(&mut notes, ".0, Tool Speed Factor: ");
        let factor_digits = decimal_of(factor as u128);
        extend(&mut notes, &factor_digits);
        extend_str(&mut notes, ".0x, Max RPM: ");
        let rpm_digits = decimal_of(tool.max_rpm as u128);
        extend(&mut notes, &rpm_digits);

        SpeedsFeedsResult {
            spindle_speed: speed,
            feed_rate,
            chip_load: load,
            surface_speed: adjusted * 3048,
            notes: string_of(&notes),
        }
    }

    /// Spindle speed and feed rate of the material kept under a name.
    pub fn quick_lookup(&self, material_name: &str) -> (r: Option<(u32, u64)>)
        ensures
            match r {
                Some(p) => entry_at(self.database.entries@, material_name@, 0) is Some && p.0
                    == self.database.entries@[entry_at(
                    self.database.entries@,
                    material_name@,
                    0,
                )->0].material.spindle_speed && p.1 == self.database.entries@[entry_at(
                    self.database.entries@,
                    material_name@,
                    0,
                )->0].material.feed_rate,
                None => entry_at(self.database.entries@, material_name@, 0) is None,
            },
    {
        match self.database.get_material(material_name) {
            Some(m) => Some((m.spindle_speed, m.feed_rate)),
            None => None,
        }
    }

    /// The names of the materials of a kind, in the order they are kept.
    pub fn suggest_materials(&self, mat_type: MaterialType) -> (r: Vec<String>)
        ensures
            r@.len() == of_type_upto(
                self.database.entries@,
                mat_type,
                self.database.entries@.len() as int,
            ).len(),
            forall|i: int|
                0 <= i < r@.len() ==> #[trigger] r@[i] == of_type_upto(
                    self.database.entries@,
                    mat_type,
                    self.database.entries@.len() as int,
                )[i].name,
    {
        let found = self.database.get_by_type(mat_type);
        let mut r: Vec<String> = Vec::new();
        let mut i: usize = 0;
        while i < found.len()
            invariant
                i <= found@.len(),
                r@.len() == i,
                forall|k: int| 0 <= k < i ==> #[trigger] r@[k] == found@[k].name,
            decreases found@.len() - i,
        {
            r.push(found[i].name.clone());
            i += 1;
        }
        r
    }
}

} // verus!
