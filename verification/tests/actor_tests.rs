use night_fishing::actor::{MeshOf, MeshRoot, ModelOf, ModelRoot};

#[test]
fn roots_list_their_entities() {
    let models = ModelRoot(vec![3, 9]);
    assert_eq!(models.entities(), &vec![3, 9]);
    assert!(ModelRoot::default().entities().is_empty());
    let meshes = MeshRoot(vec![7]);
    assert_eq!(meshes.entities(), &vec![7]);
    assert_eq!(ModelOf(3).0, 3);
    assert_eq!(MeshOf(7).0, 7);
}
