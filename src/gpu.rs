use vstd::prelude::*;
use crate::backend::{GlError, GlFunctions, Resource, allocated};

verus! {

/// Byte `k` (from the least significant) of `x`.
pub open spec fn le_byte(x: u32, k: int) -> u8 {
    ((x >> ((8 * k) as u32)) & 0xffu32) as u8
}

/// The bytes of the values in little-endian order, four per value, as they are uploaded.
pub fn u32_bytes(values: &Vec<u32>) -> (r: Vec<u8>)
    requires
        values@.len() * 4 <= usize::MAX,
    ensures
        r@.len() == 4 * values@.len(),
        forall|i: int, k: int|
            0 <= i < values@.len() && 0 <= k < 4 ==> #[trigger] r@[4 * i + k] == le_byte(values@[i], k),
{
    let mut r: Vec<u8> = Vec::new();
    let mut i: usize = 0;
    while i < values.len()
        invariant
            i <= values@.len(),
            values@.len() * 4 <= usize::MAX,
            r@.len() == 4 * i,
            forall|j: int, k: int|
                0 <= j < i && 0 <= k < 4 ==> #[trigger] r@[4 * j + k] == le_byte(values@[j], k),
        decreases values@.len() - i,
    {
        let x = values[i];
        r.push((x & 0xff) as u8);
        r.push(((x >> 8) & 0xff) as u8);
        r.push(((x >> 16) & 0xff) as u8);
        r.push(((x >> 24) & 0xff) as u8);
        proof {
            assert forall|j: int, k: int|
                0 <= j < i + 1 && 0 <= k < 4 implies #[trigger] r@[4 * j + k] == le_byte(values@[j], k) by {
                if j == i {
                    if k == 0 {
                        assert(x >> 0u32 == x) by (bit_vector);
                    }
                }
            }
        }
        i = i + 1;
    }
    r
}

/// A square matrix given as its columns (`columns[c][r]` is row `r` of column `c`), laid
/// out column by column as GL expects it with `transpose = false`: the entry of column `c`
/// and row `r` of an `n`-by-`n` matrix lands at `n * c + r`.
pub fn column_major<T: Copy>(columns: &Vec<Vec<T>>) -> (r: Vec<T>)
    requires
        2 <= columns@.len() <= 4,
        forall|c: int| 0 <= c < columns@.len() ==> (#[trigger] columns@[c])@.len() == columns@.len(),
    ensures
        r@.len() == columns@.len() * columns@.len(),
        forall|c: int, i: int|
            0 <= c < columns@.len() && 0 <= i < columns@.len() ==> r@[columns@.len() * c + i] == #[trigger] columns@[c]@[i],
{
    let n = columns.len();
    let mut r: Vec<T> = Vec::new();
    let mut c: usize = 0;
    while c < n
        invariant
            n == columns@.len(),
            2 <= n <= 4,
            forall|a: int| 0 <= a < n ==> (#[trigger] columns@[a])@.len() == n,
            c <= n,
            r@.len() == n * c,
            forall|a: int, b: int| 0 <= a < c && 0 <= b < n ==> r@[n * a + b] == #[trigger] columns@[a]@[b],
        decreases n - c,
    {
        let mut i: usize = 0;
        while i < n
            invariant
                n == columns@.len(),
                2 <= n <= 4,
                forall|a: int| 0 <= a < n ==> (#[trigger] columns@[a])@.len() == n,
                c < n,
                i <= n,
                r@.len() == n * c + i,
                forall|a: int, b: int| 0 <= a < c && 0 <= b < n ==> r@[n * a + b] == #[trigger] columns@[a]@[b],
                forall|b: int| 0 <= b < i ==> r@[n * c + b] == #[trigger] columns@[c as int]@[b],
            decreases n - i,
        {
            let ghost before = r@;
            r.push(columns[c][i]);
            proof {
                assert forall|a: int, b: int| 0 <= a < c && 0 <= b < n implies r@[n * a + b] == #[trigger] columns@[a]@[b] by {
                    assert(n * a + b < n * c) by (nonlinear_arith)
                        requires
                            0 <= a < c,
                            0 <= b < n,
                    ;
                    assert(r@[n * a + b] == before[n * a + b]);
                }
            }
            i = i + 1;
        }
        proof {
            assert(n * (c + 1) == n * c + n) by (nonlinear_arith);
        }
        c = c + 1;
    }
    r
}

/// A GPU buffer owned by the engine. It is created with its contents and released by
/// `destroy`, which takes it by value, so it is released at most once and never used
/// afterwards.
pub struct Buffer<G: GlFunctions> {
    handle: G::GlBuffer,
    target: u32,
    len: usize,
    usage: u32,
    uploaded: Ghost<Seq<u8>>,
}

impl<G: GlFunctions> Buffer<G> {
    /// The bytes handed to `buffer_data` at creation.
    pub closed spec fn uploaded(self) -> Seq<u8> {
        self.uploaded@
    }

    /// The usage hint handed to `buffer_data` at creation.
    pub closed spec fn usage(self) -> u32 {
        self.usage
    }

    pub closed spec fn byte_len(self) -> nat {
        self.len as nat
    }

    pub closed spec fn target_spec(self) -> u32 {
        self.target
    }

    /// Allocates a buffer, binds it to `target` and uploads `data` with `usage`; fails with
    /// `ResourceCreationFailed` when the backend allocates nothing (`allocated`).
    pub fn create(gl: &G, target: u32, data: &[u8], usage: u32) -> (r: Result<Buffer<G>, GlError>)
        ensures
            r matches Ok(b) ==> (b.byte_len() == data@.len() && b.target_spec() == target
                && b.uploaded() == data@ && b.usage() == usage),
            r matches Err(e) ==> (e matches GlError::ResourceCreationFailed(res) && res == Resource::Buffer),
    {
        let handle = match allocated(gl.create_buffer(), Resource::Buffer) {
            Ok(h) => h,
            Err(e) => {
                return Err(e);
            },
        };
        gl.bind_buffer(target, Some(&handle));
        gl.buffer_data(target, data, usage);
        Ok(Buffer { handle, target, len: data.len(), usage, uploaded: Ghost(data@) })
    }

    /// The usage hint given at creation.
    pub fn usage_hint(&self) -> (r: u32)
        ensures
            r == self.usage(),
    {
        self.usage
    }

    /// The number of bytes uploaded at creation.
    pub fn len(&self) -> (r: usize)
        ensures
            r == self.byte_len(),
    {
        self.len
    }

    /// Binds the buffer to the target it was created for.
    pub fn bind(&self, gl: &G) {
        gl.bind_buffer(self.target, Some(&self.handle));
    }

    /// Releases the buffer.
    pub fn destroy(self, gl: &G) {
        gl.delete_buffer(&self.handle);
    }
}

/// A 2D texture owned by the engine, created with its image and released by `destroy`.
pub struct Texture<G: GlFunctions> {
    handle: G::GlTexture,
    target: u32,
    image: Ghost<(i32, i32, i32, u32, u32, Option<Seq<u8>>)>,
    parameters: Ghost<Seq<(u32, i32)>>,
}

impl<G: GlFunctions> Texture<G> {
    /// What `tex_image_2d` was handed at creation: internal format, width, height, format,
    /// type and pixels.
    pub closed spec fn image(self) -> (i32, i32, i32, u32, u32, Option<Seq<u8>>) {
        self.image@
    }

    /// The `tex_parameteri` calls issued at creation, in order.
    pub closed spec fn parameters(self) -> Seq<(u32, i32)> {
        self.parameters@
    }

    pub closed spec fn target_spec(self) -> u32 {
        self.target
    }

    /// Allocates a texture, binds it to `target`, uploads level 0 of the image and sets the
    /// given integer parameters; fails with `ResourceCreationFailed` when the backend
    /// allocates nothing.
    pub fn create(gl: &G, target: u32, internal_format: i32, width: i32, height: i32, format: u32, ty: u32, pixels: Option<&[u8]>, parameters: &Vec<(u32, i32)>) -> (r: Result<Texture<G>, GlError>)
        ensures
            r matches Ok(t) ==> (t.target_spec() == target && t.parameters() == parameters@
                && t.image() == (internal_format, width, height, format, ty, match pixels {
                    Some(p) => Some(p@),
                    None => None,
                })),
            r matches Err(e) ==> (e matches GlError::ResourceCreationFailed(res) && res == Resource::Texture),
    {
        let handle = match allocated(gl.create_texture(), Resource::Texture) {
            Ok(h) => h,
            Err(e) => {
                return Err(e);
            },
        };
        gl.bind_texture(target, Some(&handle));
        gl.tex_image_2d(target, 0, internal_format, width, height, 0, format, ty, pixels);
        let ghost image = (internal_format, width, height, format, ty, match pixels {
            Some(p) => Some(p@),
            None => None,
        });
        let ghost mut issued: Seq<(u32, i32)> = Seq::empty();
        let mut i: usize = 0;
        while i < parameters.len()
            invariant
                i <= parameters@.len(),
                issued == parameters@.take(i as int),
            decreases parameters@.len() - i,
        {
            let (name, value) = parameters[i];
            gl.tex_parameteri(target, name, value);
            proof {
                assert(parameters@.take(i + 1) =~= parameters@.take(i as int).push((name, value)));
                issued = issued.push((name, value));
            }
            i = i + 1;
        }
        proof {
            assert(parameters@.take(parameters@.len() as int) =~= parameters@);
        }
        Ok(Texture { handle, target, image: Ghost(image), parameters: Ghost(issued) })
    }

    /// Binds the texture to texture unit `unit` (`GL_TEXTURE0 + n`).
    pub fn bind(&self, gl: &G, unit: u32) {
        gl.active_texture(unit);
        gl.bind_texture(self.target, Some(&self.handle));
    }

    /// Releases the texture.
    pub fn destroy(self, gl: &G) {
        gl.delete_texture(&self.handle);
    }
}

} // verus!
