use kremlin::endpoints::city_endpoint::{
    city_row_step, find_code, row_error, CityCsv, CityRowStep, CodedEntry, ImportReport,
};
use kremlin::endpoints::province_endpoint::{
    find_first_code, province_row_step, ImportReport as ProvinceImportReport, ProvinceCsv,
};

fn entry(code: &str, id: i64) -> CodedEntry {
    CodedEntry { code: code.to_string(), id: Some(id), uuid: Some(format!("u{id}")) }
}

fn city(code: &str, province: &str, name: &str) -> CityCsv {
    CityCsv { ibge_code: code.to_string(), province_ibge_code: province.to_string(), name: name.to_string() }
}

#[test]
fn row_messages_use_file_lines() {
    assert_eq!(row_error(0, "province not found"), "row 2: province not found");
    assert_eq!(row_error(9, "x"), "row 11: x");
}

#[test]
fn report_accounts_for_every_row_once() {
    let mut report = ImportReport::new();
    report.skip(0, "bad");
    report.record_saved(false);
    report.record_saved(true);
    report.skip_failed_save(3);
    assert_eq!((report.inserted, report.updated, report.skipped), (1, 1, 2));
    assert_eq!(report.errors, vec!["row 2: bad".to_string(), "row 5: database error".to_string()]);
    assert_eq!(report.inserted + report.updated + report.skipped, 4);

    let mut p = ProvinceImportReport::new();
    p.skip(1, "invalid required value");
    p.record_saved(true);
    assert_eq!((p.inserted, p.updated, p.skipped), (0, 1, 1));
    assert_eq!(p.errors, vec!["row 3: invalid required value".to_string()]);
}

#[test]
fn the_last_entry_of_a_code_wins() {
    let entries = vec![entry("35", 1), entry("33", 2), entry("35", 3)];
    assert_eq!(find_code(&entries, "35"), Some(2));
    assert_eq!(find_code(&entries, "33"), Some(1));
    assert_eq!(find_code(&entries, "99"), None);
    assert_eq!(find_first_code(&entries, "35"), Some(0));
    assert_eq!(find_first_code(&entries, "99"), None);
}

#[test]
fn city_rows_are_decided() {
    let provinces = vec![entry("35", 10)];
    let cities = vec![entry("3509502", 77)];
    match city_row_step(&city(" 3550308 ", " 35 ", " São Paulo "), &provinces, &cities) {
        CityRowStep::Save { city, is_update } => {
            assert!(!is_update);
            assert_eq!(city.province_id, 10);
            assert_eq!(city.name, "São Paulo");
            assert_eq!(city.ibge_code.as_deref(), Some("3550308"));
            assert_eq!(city.id, None);
        }
        CityRowStep::Skip(m) => panic!("{m}"),
    }
    match city_row_step(&city("3509502", "35", "Campinas"), &provinces, &cities) {
        CityRowStep::Save { city, is_update } => {
            assert!(is_update);
            assert_eq!(city.id, Some(77));
            assert_eq!(city.uuid.as_deref(), Some("u77"));
        }
        CityRowStep::Skip(m) => panic!("{m}"),
    }
    assert!(matches!(city_row_step(&city("1", "99", "X"), &provinces, &cities), CityRowStep::Skip("province not found")));
    assert!(matches!(city_row_step(&city(" ", "35", "X"), &provinces, &cities), CityRowStep::Skip("invalid required value")));
    assert!(matches!(city_row_step(&city("1", "35", ""), &provinces, &cities), CityRowStep::Skip("invalid required value")));
}

#[test]
fn province_rows_are_decided() {
    let known = vec![entry("35", 5), entry("35", 6)];
    let row = ProvinceCsv {
        ibge_code: " 35 ".to_string(),
        acronym: " sp ".to_string(),
        name: " São Paulo ".to_string(),
        country_code: " br ".to_string(),
    };
    let (p, is_update) = province_row_step(&row, &known).unwrap();
    assert!(is_update);
    assert_eq!(p.id, Some(5));
    assert_eq!(p.acronym, "SP");
    assert_eq!(p.country_code, "BR");
    assert_eq!(p.name, "São Paulo");
    assert_eq!(p.ibge_code.as_deref(), Some("35"));
    let mut bad = row.clone();
    bad.country_code = "BRA".to_string();
    assert_eq!(province_row_step(&bad, &known).err(), Some("invalid required value"));
    let mut accented = row.clone();
    accented.country_code = "é".to_string();
    assert!(province_row_step(&accented, &known).is_ok());
    let mut blank = row.clone();
    blank.acronym = "  ".to_string();
    assert_eq!(province_row_step(&blank, &known).err(), Some("invalid required value"));
    let (p, is_update) = province_row_step(&row, &vec![]).unwrap();
    assert!(!is_update);
    assert_eq!(p.id, None);
}
