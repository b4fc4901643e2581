use headless_chrome_operation_map::utils::regions::{Location, Region, NAME_SEPARATOR};

fn region(id: &str, name: &str, fullname: &str) -> Region {
    Region {
        id: id.to_string(),
        name: name.to_string(),
        fullname: fullname.to_string(),
        location: Location { lat: 26.59765f64.to_bits(), lng: 106.70722f64.to_bits() },
        cidx: Some(vec![1, 2]),
    }
}

fn table() -> Vec<Region> {
    vec![
        region("110000", "北京", "北京市"),
        region("520000", "贵州", "贵州省"),
        region("520100", "贵阳", "贵阳市"),
        region("520102", "南明", "南明区"),
        region("999999", "贵阳二", "贵阳市"),
    ]
}

fn id_of(found: Option<&Region>) -> Option<&str> {
    found.map(|region| region.id.as_str())
}

#[test]
fn separator_is_the_hash_sign() {
    assert_eq!(NAME_SEPARATOR, '#');
}

#[test]
fn lookup_finds_a_region_by_its_full_name() {
    let regions = table();
    let found = Region::get_map_region_by_region_full_name(&regions, "贵阳市");
    assert_eq!(found, Some(&regions[2]));
    assert_eq!(found.unwrap().name, "贵阳");
    assert_eq!(f64::from_bits(found.unwrap().location.lat), 26.59765);
    assert_eq!(f64::from_bits(found.unwrap().location.lng), 106.70722);
}

#[test]
fn lookup_takes_the_first_region_of_the_table_that_any_name_matches() {
    let regions = table();
    let lookup = |name: &str| id_of(Region::get_map_region_by_region_full_name(&regions, name));
    assert_eq!(lookup("贵州省#贵阳市#南明区"), Some("520000"));
    assert_eq!(lookup("南明区#贵阳市"), Some("520100"));
    assert_eq!(lookup("南明区#NoSuchPlace"), Some("520102"));
    assert_eq!(lookup("NoSuchPlace#北京市"), Some("110000"));
}

#[test]
fn lookup_matches_whole_names_only() {
    let regions = table();
    let lookup = |name: &str| id_of(Region::get_map_region_by_region_full_name(&regions, name));
    assert_eq!(lookup("NoSuchPlace"), None);
    assert_eq!(lookup("贵阳"), None);
    assert_eq!(lookup("贵阳市 "), None);
    assert_eq!(lookup("贵州省贵阳市"), None);
    assert_eq!(lookup(""), None);
    assert_eq!(lookup("#"), None);
    assert_eq!(lookup("贵州"), None);
}

#[test]
fn lookup_in_an_empty_table_finds_nothing() {
    let regions: Vec<Region> = Vec::new();
    assert_eq!(Region::get_map_region_by_region_full_name(&regions, "北京市"), None);
}

#[test]
fn empty_name_matches_a_region_without_a_full_name() {
    let regions = vec![region("1", "a", "北京市"), region("2", "b", "")];
    let lookup = |name: &str| id_of(Region::get_map_region_by_region_full_name(&regions, name));
    assert_eq!(lookup(""), Some("2"));
    assert_eq!(lookup("x#"), Some("2"));
    assert_eq!(lookup("北京市#"), Some("1"));
    assert_eq!(lookup("x"), None);
}
