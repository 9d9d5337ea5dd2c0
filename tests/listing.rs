use neuroxfs::xfs_listing::{data_file_names, listed_file_names};

#[test]
fn listing_names_skip_header_and_blank_lines() {
    let listing = "NAME SIZE\nalpha.dat 12\n\n  beta.xexe  3\r\ngamma.dat\n";
    assert_eq!(listed_file_names(listing), vec!["alpha.dat", "beta.xexe", "gamma.dat"]);
    assert_eq!(data_file_names(listing), vec!["alpha.dat", "gamma.dat"]);
}

#[test]
fn listing_edge_cases() {
    assert!(listed_file_names("").is_empty());
    assert!(listed_file_names("NAME SIZE").is_empty());
    assert!(listed_file_names("alpha.dat 1").is_empty());
    assert_eq!(listed_file_names("h\n\tx.dat\ty"), vec!["x.dat"]);
    assert!(data_file_names("h\nx.dat.bak 1\ndat 2\n.dat.x").is_empty());
    assert_eq!(data_file_names("h\n.dat"), vec![".dat"]);
}
