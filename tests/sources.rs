use raytracing::source::{material_source, mesh_source, MaterialKind, MeshKind, SourceError};

#[test]
fn material_sources() {
    assert_eq!(material_source("prefab: mat.bg_sky"), Ok(MaterialKind::BgSky));
    assert_eq!(material_source("prefab:mat.bg_pure"), Ok(MaterialKind::BgPure));
    assert_eq!(material_source("  prefab:   mat.lambertian  "), Ok(MaterialKind::Lambertian));
    assert_eq!(material_source("prefab: mat.emissive"), Ok(MaterialKind::Emissive));
}

#[test]
fn material_source_errors() {
    assert_eq!(material_source("file: mat.bg_sky"), Err(SourceError::NotPrefab));
    assert_eq!(material_source("prefab: mat.glass"), Err(SourceError::Unknown));
    assert_eq!(material_source("mat.bg_sky"), Err(SourceError::Malformed));
    assert_eq!(material_source(""), Err(SourceError::Malformed));
}

#[test]
fn mesh_sources() {
    assert_eq!(mesh_source("prefab: shape.sphere"), Ok(MeshKind::Sphere));
    assert_eq!(mesh_source("prefab: shape.cube"), Err(SourceError::Unknown));
    assert_eq!(mesh_source("extern: models/teapot.obj"), Err(SourceError::External));
    assert_eq!(mesh_source("asset: a"), Err(SourceError::NotPrefab));
    assert_eq!(mesh_source("prefab"), Err(SourceError::Malformed));
}
