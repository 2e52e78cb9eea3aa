use vstd::prelude::*;

verus! {

/// What parsing a byte image as a binary-object file yields: the ordered
/// direct dependency names when the bytes form a recognized executable
/// format, and nothing otherwise. The value is a function of the bytes
/// alone.
pub uninterp spec fn object_deps(bytes: Seq<u8>) -> Option<Seq<Seq<char>>>;

/// Lists the direct dynamic dependencies named inside a binary image:
/// the libraries the image itself imports, never the dependencies of a
/// dependency.
///
/// Relies on `goblin::Object::parse` and the `libraries` field of its ELF
/// and PE variants: for an ELF image the `DT_NEEDED` entries of the
/// dynamic section in table order, for a PE image the import-directory
/// module names. Any other format, and any unparseable or truncated
/// image, yields nothing rather than an error.
#[verifier::external_body]
pub fn read_dynamic_dependencies(bytes: &[u8]) -> (r: Option<Vec<String>>)
    ensures
        r.deep_view() == object_deps(bytes@),
{
    match goblin::Object::parse(bytes) {
        Ok(goblin::Object::Elf(elf)) => {
            Some(elf.libraries.iter().map(|lib| String::from(*lib)).collect())
        },
        Ok(goblin::Object::PE(pe)) => {
            Some(pe.libraries.iter().map(|lib| String::from(*lib)).collect())
        },
        _ => None,
    }
}

} // verus!
