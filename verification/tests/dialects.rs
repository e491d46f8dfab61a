use gl_dispatch::dialect::{blit_dialect, select, Dialect, DialectRule};
use gl_dispatch::version::{Api, Version};

#[test]
fn named_dialect_from_primary_4_5() {
    assert_eq!(blit_dialect(Version(Api::Gl, 4, 5)), Dialect::Named);
    assert_eq!(blit_dialect(Version(Api::Gl, 4, 6)), Dialect::Named);
    assert_eq!(blit_dialect(Version(Api::Gl, 5, 0)), Dialect::Named);
    assert_eq!(blit_dialect(Version(Api::Gl, 255, 255)), Dialect::Named);
}

#[test]
fn core_dialect_from_primary_3_0_to_4_4() {
    assert_eq!(blit_dialect(Version(Api::Gl, 3, 0)), Dialect::Core);
    assert_eq!(blit_dialect(Version(Api::Gl, 3, 1)), Dialect::Core);
    assert_eq!(blit_dialect(Version(Api::Gl, 3, 3)), Dialect::Core);
    assert_eq!(blit_dialect(Version(Api::Gl, 4, 0)), Dialect::Core);
    assert_eq!(blit_dialect(Version(Api::Gl, 4, 4)), Dialect::Core);
}

#[test]
fn extension_dialect_below_primary_3_0() {
    assert_eq!(blit_dialect(Version(Api::Gl, 2, 1)), Dialect::Extension);
    assert_eq!(blit_dialect(Version(Api::Gl, 2, 255)), Dialect::Extension);
    assert_eq!(blit_dialect(Version(Api::Gl, 1, 1)), Dialect::Extension);
    assert_eq!(blit_dialect(Version(Api::Gl, 0, 0)), Dialect::Extension);
}

#[test]
fn extension_dialect_on_every_embedded_version() {
    assert_eq!(blit_dialect(Version(Api::GlEs, 2, 0)), Dialect::Extension);
    assert_eq!(blit_dialect(Version(Api::GlEs, 3, 0)), Dialect::Extension);
    assert_eq!(blit_dialect(Version(Api::GlEs, 3, 2)), Dialect::Extension);
    assert_eq!(blit_dialect(Version(Api::GlEs, 4, 5)), Dialect::Extension);
    assert_eq!(blit_dialect(Version(Api::GlEs, 255, 255)), Dialect::Extension);
}

#[test]
fn select_takes_the_first_row_that_the_version_reaches() {
    let table = [
        DialectRule { minimum: Version(Api::Gl, 4, 0), dialect: Dialect::Named },
        DialectRule { minimum: Version(Api::Gl, 2, 0), dialect: Dialect::Core },
        DialectRule { minimum: Version(Api::Gl, 3, 0), dialect: Dialect::Extension },
    ];
    assert_eq!(select(&table, Dialect::Extension, Version(Api::Gl, 4, 1)), Dialect::Named);
    assert_eq!(select(&table, Dialect::Extension, Version(Api::Gl, 4, 0)), Dialect::Named);
    assert_eq!(select(&table, Dialect::Named, Version(Api::Gl, 3, 5)), Dialect::Core);
    assert_eq!(select(&table, Dialect::Named, Version(Api::Gl, 2, 0)), Dialect::Core);
    assert_eq!(select(&table, Dialect::Named, Version(Api::Gl, 1, 9)), Dialect::Named);
    assert_eq!(select(&table, Dialect::Core, Version(Api::GlEs, 9, 9)), Dialect::Core);
}

#[test]
fn select_on_an_empty_table_falls_back() {
    assert_eq!(select(&[], Dialect::Core, Version(Api::Gl, 4, 6)), Dialect::Core);
    assert_eq!(select(&[], Dialect::Named, Version(Api::GlEs, 2, 0)), Dialect::Named);
}
