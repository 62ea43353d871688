//! Input and output containers of one-shot encryption and decryption.

use vstd::prelude::*;

use crate::grid::Grid;

verus! {

/// Output of [`encrypt`](crate::encrypter::encrypt), consumed by
/// [`decrypt`](crate::decrypter::decrypt).
///
/// `output` holds the encrypted grids, `key` the key grid needed to decrypt them, and `nonce`
/// the counter-mode nonce, which need not be secret but must be unique per encryption.
pub struct EncryptedData<const W: usize, const H: usize> {
    pub output: Vec<Grid<W, H>>,
    pub key: Grid<W, H>,
    pub nonce: Grid<W, H>,
}

/// Output of [`decrypt`](crate::decrypter::decrypt): the decrypted cells, flattened, and the key
/// grid's cells.
pub struct DecryptedData {
    pub output: Vec<i64>,
    pub key: Vec<i64>,
}

} // verus!
