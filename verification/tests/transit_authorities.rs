use gtfs_parser::transit_authorities::SupportedTransitAuthorities;

#[test]
fn boston_download_url() {
    assert_eq!(
        SupportedTransitAuthorities::Boston.download_url(),
        "https://cdn.mbta.com/MBTA_GTFS.zip"
    );
}

#[test]
fn boston_static_download_dir() {
    assert_eq!(SupportedTransitAuthorities::Boston.get_static_download_dir(), "src/boston/");
}

#[test]
fn boston_displays_as_its_name() {
    assert_eq!(SupportedTransitAuthorities::Boston.name(), "Boston");
}

#[test]
fn feed_file_path_joins_dir_and_name() {
    assert_eq!(
        SupportedTransitAuthorities::Boston.static_file_path("trips.txt"),
        "src/boston/trips.txt"
    );
    assert_eq!(SupportedTransitAuthorities::Boston.static_file_path(""), "src/boston/");
}
