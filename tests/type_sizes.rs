use cairo_lang_language_server::type_sizes::{get_type_size_map, TypeDeclaration, TypeShape};

fn decl(id: u64, shape: TypeShape) -> TypeDeclaration {
    TypeDeclaration { id, shape: Some(shape) }
}

#[test]
fn sizes_of_each_shape() {
    let decls = vec![
        decl(0, TypeShape::SingleCell),
        decl(1, TypeShape::TwoCells),
        decl(2, TypeShape::EcState),
        decl(3, TypeShape::Uint128MulGuarantee),
        decl(4, TypeShape::Wrapper(1)),
        decl(5, TypeShape::Enum(vec![0, 2, 1])),
        decl(6, TypeShape::Struct(vec![0, 1, 5])),
        decl(7, TypeShape::Enum(vec![])),
        decl(8, TypeShape::Struct(vec![])),
    ];
    let sizes = get_type_size_map(&decls).unwrap();
    assert_eq!(sizes[&0], 1);
    assert_eq!(sizes[&1], 2);
    assert_eq!(sizes[&2], 3);
    assert_eq!(sizes[&3], 4);
    assert_eq!(sizes[&4], 2);
    assert_eq!(sizes[&5], 4);
    assert_eq!(sizes[&6], 7);
    assert_eq!(sizes[&7], 1);
    assert_eq!(sizes[&8], 0);
    assert_eq!(sizes.len(), 9);
}

#[test]
fn empty_program_has_no_sizes() {
    assert!(get_type_size_map(&vec![]).unwrap().is_empty());
}

#[test]
fn unknown_type_gives_none() {
    let decls = vec![decl(0, TypeShape::SingleCell), TypeDeclaration { id: 1, shape: None }];
    assert!(get_type_size_map(&decls).is_none());
}

#[test]
fn member_declared_later_gives_none() {
    let decls = vec![decl(0, TypeShape::Struct(vec![1])), decl(1, TypeShape::SingleCell)];
    assert!(get_type_size_map(&decls).is_none());
    let decls = vec![decl(0, TypeShape::Wrapper(3))];
    assert!(get_type_size_map(&decls).is_none());
    let decls = vec![decl(0, TypeShape::Enum(vec![3]))];
    assert!(get_type_size_map(&decls).is_none());
}

#[test]
fn oversized_struct_gives_none() {
    let mut decls = vec![decl(0, TypeShape::Uint128MulGuarantee)];
    decls.push(decl(1, TypeShape::Struct(vec![0; 8191])));
    assert_eq!(get_type_size_map(&decls).unwrap()[&1], 32764);
    decls.push(decl(2, TypeShape::Struct(vec![1, 0])));
    assert!(get_type_size_map(&decls).is_none());
}
