use vstd::prelude::*;

verus! {

/// The kinds of element that a shader variable can take.
#[derive(Debug, Clone, Copy, PartialEq, Eq, Structural)]
pub enum ElementKind {
    /// IEEE 754 binary32.
    Binary32,
    /// IEEE 754 binary64.
    Binary64,
    /// A signed integer of 32 bits.
    Signed32,
    /// An unsigned integer of 32 bits.
    Unsigned32,
}

/// The call of the graphics interface that hands a matrix to a shader
/// variable.
#[derive(Debug, Clone, Copy, PartialEq, Eq, Structural)]
pub enum UniformCall {
    /// "Uniform vector" of `len` components.
    Vector { len: usize },
    /// "Uniform matrix" of `rows` by `cols`. The library stores its
    /// matrices by columns and the interface reads its argument by rows,
    /// so `transpose` is always set.
    Matrix { rows: usize, cols: usize, transpose: bool },
}

/// Whether the interface has a "uniform matrix" call for the shape.
pub open spec fn is_matrix_shape(rows: usize, cols: usize) -> bool {
    2 <= rows <= 4 && 2 <= cols <= 4
}

/// The call for a matrix of the given shape and kind of element, if the
/// interface has one: a shape of one row and two to four columns goes to
/// the vector call for every kind of element, and a shape of two to four
/// rows and columns to the matrix call for the two floating kinds.
pub open spec fn uniform_call_spec(rows: usize, cols: usize, kind: ElementKind) -> Option<
    UniformCall,
> {
    if rows == 1 && 2 <= cols <= 4 {
        Some(UniformCall::Vector { len: cols })
    } else if is_matrix_shape(rows, cols) && (kind == ElementKind::Binary32 || kind
        == ElementKind::Binary64) {
        Some(UniformCall::Matrix { rows, cols, transpose: true })
    } else {
        None
    }
}

/// Selects the call of the graphics interface for a matrix of the given
/// shape and kind of element, or nothing where the interface has none.
pub fn uniform_call(rows: usize, cols: usize, kind: ElementKind) -> (call: Option<UniformCall>)
    ensures
        call == uniform_call_spec(rows, cols, kind),
{
    if rows == 1 {
        if 2 <= cols && cols <= 4 {
            Some(UniformCall::Vector { len: cols })
        } else {
            None
        }
    } else if 2 <= rows && rows <= 4 && 2 <= cols && cols <= 4 {
        match kind {
            ElementKind::Binary32 | ElementKind::Binary64 => Some(
                UniformCall::Matrix { rows, cols, transpose: true },
            ),
            _ => None,
        }
    } else {
        None
    }
}

/// A value that can be handed to the shader variable at a location.
pub trait SetUniform {
    /// Hands the value to the shader variable at `location`.
    fn give(&self, location: i32);
}

} // verus!
