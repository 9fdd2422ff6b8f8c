use release_smoke::extractor::{select_tool, ArchiveTool};

#[test]
fn tar_gz_name_selects_tape_archive_tool() {
    assert_eq!(select_tool("release.tar.gz"), ArchiveTool::TarGzip);
    assert_eq!(select_tool("noir-libs-x86_64-linux.tar.gz"), ArchiveTool::TarGzip);
}

#[test]
fn bare_suffix_selects_tape_archive_tool() {
    assert_eq!(select_tool(".tar.gz"), ArchiveTool::TarGzip);
}

#[test]
fn zip_name_selects_general_tool() {
    assert_eq!(select_tool("release.zip"), ArchiveTool::General);
    assert_eq!(select_tool("noir-libs-windows.7z"), ArchiveTool::General);
}

#[test]
fn pathological_names_select_general_tool() {
    assert_eq!(select_tool("notar.gz"), ArchiveTool::General);
    assert_eq!(select_tool("tar.gz"), ArchiveTool::General);
    assert_eq!(select_tool("release"), ArchiveTool::General);
    assert_eq!(select_tool(""), ArchiveTool::General);
    assert_eq!(select_tool("ar.gz"), ArchiveTool::General);
}

#[test]
fn suffix_match_is_case_sensitive() {
    assert_eq!(select_tool("release.TAR.GZ"), ArchiveTool::General);
    assert_eq!(select_tool("release.Tar.Gz"), ArchiveTool::General);
}
