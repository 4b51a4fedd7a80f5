use osm_downloader::network::{DownloadFormat, Downloader};
use osm_downloader::text::url_filename;

#[test]
fn test_construct_url() {
    let downloader = Downloader::new();

    // Case 1: Continent/Country/Region
    let url = downloader.construct_url("Asia", "Indonesia", "Kalimantan", &DownloadFormat::Pbf);
    assert_eq!(
        url,
        "https://download.geofabrik.de/asia/indonesia/kalimantan-latest.osm.pbf"
    );

    // Case 2: Continent/Country
    let url = downloader.construct_url("Europe", "Germany", "", &DownloadFormat::Shapefile);
    assert_eq!(
        url,
        "https://download.geofabrik.de/europe/germany-latest-free.shp.zip"
    );

    // Case 3: Continent only
    let url = downloader.construct_url("Africa", "", "", &DownloadFormat::Pbf);
    assert_eq!(url, "https://download.geofabrik.de/africa-latest.osm.pbf");

    // Case 4: Trimming and Lowercase
    let url = downloader.construct_url(" Asia ", " Indonesia ", " Kalimantan ", &DownloadFormat::Pbf);
    assert_eq!(
        url,
        "https://download.geofabrik.de/asia/indonesia/kalimantan-latest.osm.pbf"
    );
}

#[test]
fn test_suffix_per_format() {
    assert_eq!(DownloadFormat::Pbf.suffix(), "-latest.osm.pbf");
    assert_eq!(DownloadFormat::Shapefile.suffix(), "-latest-free.shp.zip");
}

#[test]
fn test_construct_url_mixed_whitespace_and_case() {
    let downloader = Downloader::new();
    let url = downloader.construct_url("\tEUROPE\n", "  gerMANY", "", &DownloadFormat::Pbf);
    assert_eq!(url, "https://download.geofabrik.de/europe/germany-latest.osm.pbf");
}

#[test]
fn test_construct_url_region_without_country() {
    // Region given without a country keeps the country segment slot.
    let downloader = Downloader::new();
    let url = downloader.construct_url("Europe", "", "Berlin", &DownloadFormat::Pbf);
    assert_eq!(url, "https://download.geofabrik.de/europe//berlin-latest.osm.pbf");
}

#[test]
fn test_url_filename_segments() {
    assert_eq!(
        url_filename("https://download.geofabrik.de/asia/indonesia/kalimantan-latest.osm.pbf"),
        "kalimantan-latest.osm.pbf"
    );
    assert_eq!(url_filename("plain-name.zip"), "plain-name.zip");
    assert_eq!(url_filename("ends/with/slash/"), "");
}
