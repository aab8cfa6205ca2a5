//! The parameters of a frame, and their layout in the uniform buffer.
//!
//! The kernel reads the parameters as 24 words. A vector of three scalars
//! takes three words; each column of the orientation matrix is padded to
//! four. Encoding writes zero into the padding and decoding does not read it.

use crate::layout::{
    bytes_of_words, lemma_word_in_bytes, lemma_words_round_trip, read_word, word_at,
    words_of_bytes, words_to_bytes,
};
use crate::scalar::Scalar;
use crate::vector::{Mat3, Vec3};
use vstd::prelude::*;

verus! {

/// The number of words of the parameters.
pub const PARAMS_WORDS: usize = 24;

/// The number of bytes of the parameters, which is the size of the uniform
/// buffer.
pub const PARAMS_BYTES: usize = 96;

/// The byte at which the camera position starts.
pub const CAMERA_POS_OFFSET: usize = 0;

/// The byte at which the random seed starts.
pub const RANDOM_SEED_OFFSET: usize = 12;

/// The byte at which the camera orientation starts. Its columns follow each
/// other 16 bytes apart.
pub const CAMERA_DIR_OFFSET: usize = 16;

/// The byte at which the light direction starts.
pub const LIGHT_DIR_OFFSET: usize = 64;

/// The byte at which the count of accumulated frames starts.
pub const ACCUMULATED_FRAMES_OFFSET: usize = 76;

/// The byte at which the width starts.
pub const WIDTH_OFFSET: usize = 80;

/// The byte at which the height starts.
pub const HEIGHT_OFFSET: usize = 84;

/// The byte at which the number of triangle meshes starts.
pub const TRIANGLE_MESH_COUNT_OFFSET: usize = 88;

/// The byte at which the number of spheres starts.
pub const SPHERE_COUNT_OFFSET: usize = 92;

/// What the kernel is told about a frame.
#[derive(Clone, Copy, Debug, PartialEq, Eq, Structural)]
pub struct IParams {
    pub camera_pos: Vec3,
    pub random_seed: Scalar,
    pub camera_dir: Mat3,
    pub light_dir: Vec3,
    pub accumulated_frames: u32,
    pub width: u32,
    pub height: u32,
    pub triangle_mesh_count: u32,
    pub sphere_count: u32,
}

impl IParams {
    /// The 24 words of the parameters.
    pub open spec fn words(self) -> Seq<u32> {
        seq![
            self.camera_pos.x.bits,
            self.camera_pos.y.bits,
            self.camera_pos.z.bits,
            self.random_seed.bits,
            self.camera_dir.x_axis.x.bits,
            self.camera_dir.x_axis.y.bits,
            self.camera_dir.x_axis.z.bits,
            0u32,
            self.camera_dir.y_axis.x.bits,
            self.camera_dir.y_axis.y.bits,
            self.camera_dir.y_axis.z.bits,
            0u32,
            self.camera_dir.z_axis.x.bits,
            self.camera_dir.z_axis.y.bits,
            self.camera_dir.z_axis.z.bits,
            0u32,
            self.light_dir.x.bits,
            self.light_dir.y.bits,
            self.light_dir.z.bits,
            self.accumulated_frames,
            self.width,
            self.height,
            self.triangle_mesh_count,
            self.sphere_count,
        ]
    }

    /// The parameters that 24 words hold.
    pub open spec fn from_words(w: Seq<u32>) -> IParams {
        IParams {
            camera_pos: Vec3::spec_from_bits(w[0], w[1], w[2]),
            random_seed: Scalar { bits: w[3] },
            camera_dir: Mat3 {
                x_axis: Vec3::spec_from_bits(w[4], w[5], w[6]),
                y_axis: Vec3::spec_from_bits(w[8], w[9], w[10]),
                z_axis: Vec3::spec_from_bits(w[12], w[13], w[14]),
            },
            light_dir: Vec3::spec_from_bits(w[16], w[17], w[18]),
            accumulated_frames: w[19],
            width: w[20],
            height: w[21],
            triangle_mesh_count: w[22],
            sphere_count: w[23],
        }
    }

    /// The 96 bytes of the parameters.
    pub open spec fn spec_encode(self) -> Seq<u8> {
        bytes_of_words(self.words())
    }

    /// The parameters that 96 bytes hold. Other lengths hold none.
    pub open spec fn spec_decode(bytes: Seq<u8>) -> Option<IParams> {
        if bytes.len() == PARAMS_BYTES {
            Some(IParams::from_words(words_of_bytes(bytes)))
        } else {
            None
        }
    }

    /// The parameters as words.
    pub fn to_words(&self) -> (words: Vec<u32>)
        ensures
            words@ == self.words(),
            words@.len() == PARAMS_WORDS,
    {
        let mut words: Vec<u32> = Vec::new();
        self.camera_pos.write_words(&mut words);
        words.push(self.random_seed.bits);
        self.camera_dir.x_axis.write_words(&mut words);
        words.push(0);
        self.camera_dir.y_axis.write_words(&mut words);
        words.push(0);
        self.camera_dir.z_axis.write_words(&mut words);
        words.push(0);
        self.light_dir.write_words(&mut words);
        words.push(self.accumulated_frames);
        words.push(self.width);
        words.push(self.height);
        words.push(self.triangle_mesh_count);
        words.push(self.sphere_count);
        assert(words@ =~= self.words());
        words
    }

    /// The parameters as the bytes of the uniform buffer.
    pub fn encode(&self) -> (bytes: Vec<u8>)
        ensures
            bytes@ == self.spec_encode(),
            bytes@.len() == PARAMS_BYTES,
    {
        words_to_bytes(&self.to_words())
    }

    /// The parameters that the bytes of a uniform buffer hold, or `None`
    /// where the bytes do not have the length of the buffer.
    pub fn decode(bytes: &[u8]) -> (decoded: Option<IParams>)
        ensures
            decoded == IParams::spec_decode(bytes@),
            decoded is Some <==> bytes@.len() == PARAMS_BYTES,
    {
        if bytes.len() != PARAMS_BYTES {
            return None;
        }
        let ghost w = words_of_bytes(bytes@);
        let camera_pos = read_vec3(bytes, CAMERA_POS_OFFSET);
        let random_seed = Scalar { bits: read_word(bytes, RANDOM_SEED_OFFSET) };
        let x_axis = read_vec3(bytes, CAMERA_DIR_OFFSET);
        let y_axis = read_vec3(bytes, CAMERA_DIR_OFFSET + 16);
        let z_axis = read_vec3(bytes, CAMERA_DIR_OFFSET + 32);
        let light_dir = read_vec3(bytes, LIGHT_DIR_OFFSET);
        let params = IParams {
            camera_pos,
            random_seed,
            camera_dir: Mat3 { x_axis, y_axis, z_axis },
            light_dir,
            accumulated_frames: read_word(bytes, ACCUMULATED_FRAMES_OFFSET),
            width: read_word(bytes, WIDTH_OFFSET),
            height: read_word(bytes, HEIGHT_OFFSET),
            triangle_mesh_count: read_word(bytes, TRIANGLE_MESH_COUNT_OFFSET),
            sphere_count: read_word(bytes, SPHERE_COUNT_OFFSET),
        };
        assert(params == IParams::from_words(w));
        Some(params)
    }
}

/// The vector whose three words start at byte `at`.
fn read_vec3(bytes: &[u8], at: usize) -> (v: Vec3)
    requires
        at + 12 <= bytes.len(),
    ensures
        v == Vec3::spec_from_bits(
            word_at(bytes@, at as int),
            word_at(bytes@, at + 4),
            word_at(bytes@, at + 8),
        ),
{
    Vec3::from_bits(read_word(bytes, at), read_word(bytes, at + 4), read_word(bytes, at + 8))
}

/// Decoding the bytes of parameters gives the parameters back, field by
/// field.
pub proof fn lemma_params_round_trip(p: IParams)
    ensures
        p.spec_encode().len() == PARAMS_BYTES,
        IParams::spec_decode(p.spec_encode()) == Some(p),
{
    lemma_words_round_trip(p.words());
    assert(IParams::from_words(p.words()) == p);
}

/// Each field stands at its offset in the bytes of the parameters.
pub proof fn lemma_fields_stand_at_their_offsets(p: IParams)
    ensures
        word_at(p.spec_encode(), CAMERA_POS_OFFSET as int) == p.camera_pos.x.bits,
        word_at(p.spec_encode(), CAMERA_POS_OFFSET + 4) == p.camera_pos.y.bits,
        word_at(p.spec_encode(), CAMERA_POS_OFFSET + 8) == p.camera_pos.z.bits,
        word_at(p.spec_encode(), RANDOM_SEED_OFFSET as int) == p.random_seed.bits,
        word_at(p.spec_encode(), CAMERA_DIR_OFFSET as int) == p.camera_dir.x_axis.x.bits,
        word_at(p.spec_encode(), CAMERA_DIR_OFFSET + 4) == p.camera_dir.x_axis.y.bits,
        word_at(p.spec_encode(), CAMERA_DIR_OFFSET + 8) == p.camera_dir.x_axis.z.bits,
        word_at(p.spec_encode(), CAMERA_DIR_OFFSET + 16) == p.camera_dir.y_axis.x.bits,
        word_at(p.spec_encode(), CAMERA_DIR_OFFSET + 20) == p.camera_dir.y_axis.y.bits,
        word_at(p.spec_encode(), CAMERA_DIR_OFFSET + 24) == p.camera_dir.y_axis.z.bits,
        word_at(p.spec_encode(), CAMERA_DIR_OFFSET + 32) == p.camera_dir.z_axis.x.bits,
        word_at(p.spec_encode(), CAMERA_DIR_OFFSET + 36) == p.camera_dir.z_axis.y.bits,
        word_at(p.spec_encode(), CAMERA_DIR_OFFSET + 40) == p.camera_dir.z_axis.z.bits,
        word_at(p.spec_encode(), LIGHT_DIR_OFFSET as int) == p.light_dir.x.bits,
        word_at(p.spec_encode(), LIGHT_DIR_OFFSET + 4) == p.light_dir.y.bits,
        word_at(p.spec_encode(), LIGHT_DIR_OFFSET + 8) == p.light_dir.z.bits,
        word_at(p.spec_encode(), ACCUMULATED_FRAMES_OFFSET as int) == p.accumulated_frames,
        word_at(p.spec_encode(), WIDTH_OFFSET as int) == p.width,
        word_at(p.spec_encode(), HEIGHT_OFFSET as int) == p.height,
        word_at(p.spec_encode(), TRIANGLE_MESH_COUNT_OFFSET as int) == p.triangle_mesh_count,
        word_at(p.spec_encode(), SPHERE_COUNT_OFFSET as int) == p.sphere_count,
{
    let w = p.words();
    assert forall|i: int| 0 <= i < 24 implies word_at(bytes_of_words(w), 4 * i) == #[trigger] w[i] by {
        lemma_word_in_bytes(w, i);
    }
    assert(w[0] == p.camera_pos.x.bits);
    assert(w[1] == p.camera_pos.y.bits);
    assert(w[2] == p.camera_pos.z.bits);
    assert(w[3] == p.random_seed.bits);
    assert(w[4] == p.camera_dir.x_axis.x.bits);
    assert(w[5] == p.camera_dir.x_axis.y.bits);
    assert(w[6] == p.camera_dir.x_axis.z.bits);
    assert(w[8] == p.camera_dir.y_axis.x.bits);
    assert(w[9] == p.camera_dir.y_axis.y.bits);
    assert(w[10] == p.camera_dir.y_axis.z.bits);
    assert(w[12] == p.camera_dir.z_axis.x.bits);
    assert(w[13] == p.camera_dir.z_axis.y.bits);
    assert(w[14] == p.camera_dir.z_axis.z.bits);
    assert(w[16] == p.light_dir.x.bits);
    assert(w[17] == p.light_dir.y.bits);
    assert(w[18] == p.light_dir.z.bits);
    assert(w[19] == p.accumulated_frames);
    assert(w[20] == p.width);
    assert(w[21] == p.height);
    assert(w[22] == p.triangle_mesh_count);
    assert(w[23] == p.sphere_count);
}

} // verus!
