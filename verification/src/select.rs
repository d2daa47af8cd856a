//! The file-selection policy of the scan: every regular file whose extension
//! marks it as a source file is taken, anywhere under the scan root, except
//! inside a directory that holds build output.

use vstd::prelude::*;

verus! {

/// A directory with this name holds build output; its whole subtree is
/// skipped by the scan.
pub fn is_excluded_dir(name: &String) -> (r: bool)
    ensures
        r == (name@ == "target"@),
{
    let excluded: String = "target".to_owned();
    name.eq(&excluded)
}

/// A file with this extension is a source file of the target language and is
/// handed to the parser.
pub fn is_source_extension(extension: &String) -> (r: bool)
    ensures
        r == (extension@ == "rs"@),
{
    let source: String = "rs".to_owned();
    extension.eq(&source)
}

} // verus!
