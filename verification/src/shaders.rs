//! Which files of the shader directory are shaders.

use vstd::prelude::*;

verus! {

/// The file name extension of a shader, with its dot: `.wgsl`.
pub open spec fn shader_suffix() -> Seq<u8> {
    seq![0x2Eu8, 0x77u8, 0x67u8, 0x73u8, 0x6Cu8]
}

/// A file name is a shader's if its extension is `wgsl`: it ends in `.wgsl`
/// and has something before that dot. Letter case counts.
pub open spec fn spec_is_shader_file(name: Seq<u8>) -> bool {
    name.len() > 5 && name.skip(name.len() - 5) == shader_suffix()
}

/// Tells whether a file name, given as its bytes, is that of a shader.
pub fn is_shader_file(name: &[u8]) -> (is_shader: bool)
    ensures
        is_shader == spec_is_shader_file(name@),
{
    let n = name.len();
    if n <= 5 {
        return false;
    }
    let matches = name[n - 5] == 0x2E && name[n - 4] == 0x77 && name[n - 3] == 0x67 && name[n - 2]
        == 0x73 && name[n - 1] == 0x6C;
    proof {
        let tail = name@.skip(n - 5);
        assert(tail.len() == 5);
        assert(tail[0] == name@[n - 5]);
        assert(tail[1] == name@[n - 4]);
        assert(tail[2] == name@[n - 3]);
        assert(tail[3] == name@[n - 2]);
        assert(tail[4] == name@[n - 1]);
        if matches {
            assert(tail =~= shader_suffix());
        }
    }
    matches
}

} // verus!
