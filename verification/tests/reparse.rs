//! The generated text must be well-formed Rust: reparse it and check its
//! shape item by item.

use volt_derive::{expand, ModuleData, ModuleInput};

fn generated_file(name: &str, fields: &[&str]) -> syn::File {
    let input = ModuleInput {
        name: name.to_string(),
        data: ModuleData::NamedStruct(fields.iter().map(|f| f.to_string()).collect()),
    };
    let src = expand(&input).unwrap();
    syn::parse_str::<syn::File>(&src).expect("generated code must parse")
}

#[test]
fn generated_code_parses() {
    let file = generated_file("Syntax", &["number", "string"]);
    assert_eq!(file.items.len(), 2);
}

#[test]
fn accessor_impl_shape() {
    let file = generated_file("Syntax", &["number", "string", "comment"]);
    match &file.items[0] {
        syn::Item::Impl(block) => {
            assert!(block.trait_.is_none());
            assert_eq!(block.items.len(), 3);
            let names: Vec<String> = block
                .items
                .iter()
                .map(|item| match item {
                    syn::ImplItem::Method(m) => m.sig.ident.to_string(),
                    _ => panic!("unexpected impl item"),
                })
                .collect();
            assert_eq!(names, ["number", "string", "comment"]);
        }
        _ => panic!("expected an impl block"),
    }
}

#[test]
fn assembly_impl_shape() {
    let file = generated_file("Syntax", &["number"]);
    match &file.items[1] {
        syn::Item::Impl(block) => {
            let (_, path, _) = block.trait_.as_ref().expect("a trait impl");
            let last = path.segments.last().expect("a path segment");
            assert_eq!(last.ident.to_string(), "VoltModuleAssist");
            assert_eq!(block.items.len(), 1);
            match &block.items[0] {
                syn::ImplItem::Method(m) => {
                    assert_eq!(m.sig.ident.to_string(), "into_rule_vec");
                }
                _ => panic!("unexpected impl item"),
            }
        }
        _ => panic!("expected an impl block"),
    }
}

#[test]
fn empty_struct_parses() {
    let file = generated_file("Empty", &[]);
    assert_eq!(file.items.len(), 2);
    match &file.items[0] {
        syn::Item::Impl(block) => assert!(block.items.is_empty()),
        _ => panic!("expected an impl block"),
    }
}
