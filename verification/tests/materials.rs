//! Tests of the materials database and of the speeds and feeds calculator.

use gcodekit2::materials::{
    CalculatorError, Material, MaterialDatabase, MaterialType, SpeedsFeedsCalculator,
    ToolMaterial, ToolSpec,
};

fn hss_tool(diameter: u64, max_rpm: u32) -> ToolSpec {
    ToolSpec { diameter, flutes: 2, tool_material: ToolMaterial::HSS, max_rpm }
}

#[test]
fn test_material_creation() {
    let mat = Material::new("Test".to_string(), MaterialType::Wood, 1_000_000, 1500, 3000, 80);
    assert_eq!(mat.name, "Test");
    assert_eq!(mat.feed_rate, 1_000_000);
    assert_eq!(mat.spindle_speed, 1500);
    assert_eq!(mat.cut_depth, 3000);
    assert_eq!(mat.laser_power, 80);
    assert_eq!(mat.description, "");
    let described = mat.with_description("A test".to_string());
    assert_eq!(described.description, "A test");
    assert_eq!(described.name, "Test");
}

#[test]
fn test_material_database_defaults() {
    let db = MaterialDatabase::new();
    assert!(db.count() > 5);
    assert!(db.get_material("Wood (Soft)").is_some());
}

#[test]
fn test_default_materials_exactly() {
    let db = MaterialDatabase::new();
    assert_eq!(db.count(), 7);
    assert_eq!(
        db.list_materials(),
        vec![
            "Wood (Soft)",
            "Wood (Hard)",
            "Acrylic",
            "Plastic (PVC)",
            "Metal (Aluminum)",
            "Leather",
            "Fabric (Cotton)",
        ]
    );
    let acrylic = db.get_material("Acrylic").unwrap();
    assert_eq!(acrylic.material_type, MaterialType::Acrylic);
    assert_eq!(acrylic.feed_rate, 800_000);
    assert_eq!(acrylic.spindle_speed, 1800);
    assert_eq!(acrylic.cut_depth, 2500);
    assert_eq!(acrylic.laser_power, 70);
    assert_eq!(acrylic.description, "Cast and extruded acrylic");
    let leather = db.get_material("Leather").unwrap();
    assert_eq!(leather.cut_depth, 500);
    assert!(db.get_material("leather").is_none());
    assert_eq!(MaterialDatabase::default().count(), 7);
    assert_eq!(MaterialDatabase::empty().count(), 0);
}

#[test]
fn test_get_by_type() {
    let db = MaterialDatabase::new();
    let wood_materials = db.get_by_type(MaterialType::Wood);
    assert!(wood_materials.len() >= 2);
    assert_eq!(wood_materials.len(), 2);
    assert_eq!(wood_materials[0].name, "Wood (Soft)");
    assert_eq!(wood_materials[1].name, "Wood (Hard)");
    assert!(db.get_by_type(MaterialType::Glass).is_empty());
}

#[test]
fn test_add_material() {
    let mut db = MaterialDatabase::new();
    let initial_count = db.count();
    let mat = Material::new("Custom".to_string(), MaterialType::Stone, 500_000, 800, 2000, 75);
    db.add_material(mat);
    assert_eq!(db.count(), initial_count + 1);
    assert_eq!(db.get_material("Custom").unwrap().spindle_speed, 800);
}

#[test]
fn test_add_material_replaces_same_name() {
    let mut db = MaterialDatabase::new();
    let mat = Material::new("Acrylic".to_string(), MaterialType::Glass, 1, 2, 3, 4);
    db.add_material(mat);
    assert_eq!(db.count(), 7);
    let kept = db.get_material("Acrylic").unwrap();
    assert_eq!(kept.material_type, MaterialType::Glass);
    assert_eq!(kept.spindle_speed, 2);
    assert_eq!(db.list_materials()[2], "Acrylic");
}

#[test]
fn test_remove_material() {
    let mut db = MaterialDatabase::new();
    let initial_count = db.count();
    db.remove_material("Wood (Soft)");
    assert_eq!(db.count(), initial_count - 1);
    assert!(db.get_material("Wood (Soft)").is_none());
}

#[test]
fn test_remove_material_returns_it() {
    let mut db = MaterialDatabase::new();
    let removed = db.remove_material("Leather").unwrap();
    assert_eq!(removed.name, "Leather");
    assert_eq!(removed.laser_power, 50);
    assert!(db.remove_material("Leather").is_none());
    assert_eq!(db.count(), 6);
    assert_eq!(db.list_materials()[5], "Fabric (Cotton)");
}

#[test]
fn test_list_materials() {
    let db = MaterialDatabase::new();
    let list = db.list_materials();
    assert!(list.contains(&"Wood (Soft)".to_string()));
}

#[test]
fn test_update_material() {
    let mut db = MaterialDatabase::new();
    let changed = Material::new("Renamed".to_string(), MaterialType::Rubber, 10, 20, 30, 40);
    assert!(db.update_material("Acrylic", changed.clone()));
    assert_eq!(db.count(), 7);
    let kept = db.get_material("Acrylic").unwrap();
    assert_eq!(kept.name, "Renamed");
    assert_eq!(kept.material_type, MaterialType::Rubber);
    assert!(db.get_material("Renamed").is_none());
    assert!(!db.update_material("Missing", changed));
    assert_eq!(db.count(), 7);
}

#[test]
fn test_carbide_tool_speed_factor() {
    assert_eq!(ToolMaterial::HSS.speed_factor(), 1);
    assert_eq!(ToolMaterial::Carbide.speed_factor(), 3);
    assert_eq!(ToolMaterial::Diamond.speed_factor(), 5);
}

#[test]
fn test_speeds_feeds_calculator_creation() {
    let db = MaterialDatabase::new();
    let calc = SpeedsFeedsCalculator::new(db);
    assert!(calc.quick_lookup("Wood (Soft)").is_some());
}

#[test]
fn test_calculate_speeds_feeds_wood() {
    let db = MaterialDatabase::new();
    let calc = SpeedsFeedsCalculator::new(db);
    let tool = hss_tool(6350, 5000);

    let result = calc.calculate("Wood (Soft)", &tool).unwrap();
    assert!(result.spindle_speed > 0);
    assert!(result.feed_rate > 0);
    assert!(result.spindle_speed <= 5000);
    assert!(result.chip_load > 0);
    assert!(result.surface_speed > 0);
}

#[test]
fn test_calculate_speeds_feeds_wood_exactly() {
    let calc = SpeedsFeedsCalculator::new(MaterialDatabase::new());
    let result = calc.calculate("Wood (Soft)", &hss_tool(6350, 5000)).unwrap();
    // 200 * 3.82 / 6.35 = 120.3..., without its fraction.
    assert_eq!(result.spindle_speed, 120);
    assert_eq!(result.chip_load, 5);
    assert_eq!(result.feed_rate, 5 * 2 * 120);
    assert_eq!(result.surface_speed, 200 * 3048);
    assert_eq!(result.notes, "Base SFM: 200.0, Tool Speed Factor: 1.0x, Max RPM: 5000");

    let small = calc.calculate("Wood (Soft)", &hss_tool(100, 5000)).unwrap();
    assert_eq!(small.spindle_speed, 5000);
    let wide = calc.calculate("Wood (Soft)", &hss_tool(50_000, 5000)).unwrap();
    assert_eq!(wide.spindle_speed, 100);
    let none = calc.calculate("Wood (Soft)", &hss_tool(0, 4000)).unwrap();
    assert_eq!(none.spindle_speed, 4000);
}

#[test]
fn test_calculate_speeds_feeds_metal() {
    let db = MaterialDatabase::new();
    let calc = SpeedsFeedsCalculator::new(db);
    let tool = hss_tool(6350, 3000);

    let result = calc.calculate("Metal (Aluminum)", &tool).unwrap();
    assert!(result.spindle_speed > 0);
    assert!(result.feed_rate > 0);
    assert!(result.spindle_speed <= 3000);
}

#[test]
fn test_carbide_tool_higher_speed_than_hss() {
    let db = MaterialDatabase::new();
    let calc = SpeedsFeedsCalculator::with_ref(&db);
    let material = db.get_material("Wood (Soft)").unwrap();

    let hss_tool = ToolSpec {
        diameter: 6350,
        flutes: 2,
        tool_material: ToolMaterial::HSS,
        max_rpm: 5000,
    };

    let carbide_tool = ToolSpec {
        diameter: 6350,
        flutes: 2,
        tool_material: ToolMaterial::Carbide,
        max_rpm: 15000,
    };

    let hss_result = calc.calculate_from_material(material, &hss_tool);
    let carbide_result = calc.calculate_from_material(material, &carbide_tool);

    assert!(carbide_result.spindle_speed > hss_result.spindle_speed);
    assert_eq!(carbide_result.spindle_speed, 360);
    assert_eq!(
        carbide_result.notes,
        "Base SFM: 200.0, Tool Speed Factor: 3.0x, Max RPM: 15000"
    );
}

#[test]
fn test_quick_lookup() {
    let db = MaterialDatabase::new();
    let calc = SpeedsFeedsCalculator::with_ref(&db);

    let result = calc.quick_lookup("Acrylic");
    assert!(result.is_some());
    let (speed, feed) = result.unwrap();
    assert_eq!(speed, 1800);
    assert!(feed > 0);
    assert_eq!(feed, 800_000);
    assert!(calc.quick_lookup("Missing").is_none());
}

#[test]
fn test_invalid_material_error() {
    let db = MaterialDatabase::new();
    let calc = SpeedsFeedsCalculator::with_ref(&db);
    let tool = hss_tool(6350, 5000);

    let result = calc.calculate("NonexistentMaterial", &tool);
    assert!(result.is_err());
    match result {
        Err(CalculatorError::MaterialNotFound { name }) => {
            assert_eq!(name, "NonexistentMaterial");
        }
        Ok(_) => panic!("a recommendation for a material that is not kept"),
    }
    let error = CalculatorError::MaterialNotFound { name: "X".to_string() };
    assert_eq!(error.message(), "Material 'X' not found");
}

#[test]
fn test_suggest_materials_by_type() {
    let db = MaterialDatabase::new();
    let calc = SpeedsFeedsCalculator::with_ref(&db);

    let materials = calc.suggest_materials(MaterialType::Wood);
    assert!(!materials.is_empty());
    assert!(materials.iter().any(|m| m.contains("Wood")));
    assert_eq!(materials, vec!["Wood (Soft)", "Wood (Hard)"]);
}

#[test]
fn test_different_materials_different_speeds() {
    let db = MaterialDatabase::new();
    let calc = SpeedsFeedsCalculator::with_ref(&db);
    let tool = hss_tool(6350, 5000);

    let wood_result = calc.calculate("Wood (Soft)", &tool).unwrap();
    let metal_result = calc.calculate("Metal (Aluminum)", &tool).unwrap();

    // Wood should have higher speed than metal
    assert!(wood_result.spindle_speed > metal_result.spindle_speed);
}

#[test]
fn test_rpm_respects_tool_max() {
    let db = MaterialDatabase::new();
    let calc = SpeedsFeedsCalculator::with_ref(&db);
    let tool = hss_tool(50_000, 500);

    let result = calc.calculate("Wood (Soft)", &tool).unwrap();
    assert!(result.spindle_speed <= 500);
}

#[test]
fn test_large_tool_lower_rpm() {
    let db = MaterialDatabase::new();
    let calc = SpeedsFeedsCalculator::with_ref(&db);
    let material = db.get_material("Wood (Soft)").unwrap();

    let small_tool = hss_tool(3000, 10000);
    let large_tool = hss_tool(12_000, 10000);

    let small_result = calc.calculate_from_material(material, &small_tool);
    let large_result = calc.calculate_from_material(material, &large_tool);

    assert!(small_result.spindle_speed > large_result.spindle_speed);
    assert_eq!(small_result.spindle_speed, 254);
    assert_eq!(large_result.spindle_speed, 100);
}

#[test]
fn test_material_type_str() {
    assert_eq!(MaterialType::Wood.as_str(), "Wood");
    assert_eq!(MaterialType::Acrylic.as_str(), "Acrylic");
}

#[test]
fn test_material_types() {
    let all = MaterialType::all();
    assert_eq!(all.len(), 10);
    let names: Vec<&str> = all.iter().map(|m| m.as_str()).collect();
    assert_eq!(
        names,
        vec![
            "Wood", "Plastic", "Metal", "Acrylic", "Fabric", "Paper", "Rubber", "Stone", "Glass",
            "Leather"
        ]
    );
    assert_eq!(ToolMaterial::HSS.speed_factor(), 1);
    assert_eq!(ToolMaterial::Carbide.speed_factor(), 3);
    assert_eq!(ToolMaterial::Diamond.speed_factor(), 5);
}
