//! What the graphics device is told about a mesh: how many bytes each buffer
//! takes, where position and normal stand within a vertex, and how many
//! indices a draw call reads. The device calls themselves are made by the
//! caller, who hands back the identities that the device gave out.

use vstd::prelude::*;
use crate::mesh::{Mesh, MeshData};
use crate::shader::{Program, ShaderProgram, UniformLocation};
use vstd::string::StringSliceAdditionalSpecFns;

verus! {

/// The identity of a vertex-array object on the device.
#[derive(Clone, Copy, Debug, PartialEq, Eq, Structural)]
pub struct VertexArray(pub u32);

/// The identity of a buffer object on the device.
#[derive(Clone, Copy, Debug, PartialEq, Eq, Structural)]
pub struct Buffer(pub u32);

/// The bytes of one word of the vertex array or of the index list.
pub const WORD_BYTES: usize = 4;

/// The words of one vertex.
pub const VERTEX_WORDS: usize = 6;

/// The bytes from one vertex to the next.
pub const VERTEX_STRIDE: i32 = 24;

/// The components of a position and of a normal.
pub const ATTRIBUTE_COMPONENTS: i32 = 3;

/// The attribute that carries the position of a vertex.
pub const POSITION_ATTRIBUTE: u32 = 0;

/// The attribute that carries the normal of a vertex.
pub const NORMAL_ATTRIBUTE: u32 = 1;

/// The bytes from the start of a vertex to its normal.
pub const NORMAL_OFFSET: usize = 12;

/// One attribute of a vertex: its number, how many floats it has, the bytes
/// from one vertex to the next, and the bytes from the start of a vertex to
/// the attribute.
#[derive(Clone, Copy, Debug, PartialEq, Eq, Structural)]
pub struct VertexAttribute {
    pub index: u32,
    pub components: i32,
    pub stride: i32,
    pub offset: usize,
}

/// What to upload and declare for a mesh.
#[derive(Clone, Copy, Debug, PartialEq, Eq, Structural)]
pub struct UploadPlan {
    /// The size of the vertex buffer in bytes.
    pub vertex_bytes: isize,
    /// The size of the index buffer in bytes.
    pub index_bytes: isize,
    pub position: VertexAttribute,
    pub normal: VertexAttribute,
    /// The number of indices that a draw call reads.
    pub index_count: i32,
}

/// Why the device cannot take a mesh.
#[derive(Clone, Copy, Debug, PartialEq, Eq, Structural)]
pub enum UploadError {
    /// The vertex array has more bytes than a buffer size can say.
    VertexBufferTooLarge,
    /// The index list has more bytes than a buffer size can say, or more
    /// indices than a draw call can count.
    IndexBufferTooLarge,
}

/// The position attribute: three floats at the start of each vertex.
pub open spec fn position_attribute() -> VertexAttribute {
    VertexAttribute {
        index: POSITION_ATTRIBUTE,
        components: ATTRIBUTE_COMPONENTS,
        stride: VERTEX_STRIDE,
        offset: 0,
    }
}

/// The normal attribute: three floats behind the position.
pub open spec fn normal_attribute() -> VertexAttribute {
    VertexAttribute {
        index: NORMAL_ATTRIBUTE,
        components: ATTRIBUTE_COMPONENTS,
        stride: VERTEX_STRIDE,
        offset: NORMAL_OFFSET,
    }
}

/// The upload of a mesh, where the device can take it.
pub open spec fn planned(mesh: MeshData) -> Result<UploadPlan, UploadError> {
    if WORD_BYTES * mesh.vertices.len() > isize::MAX {
        Err(UploadError::VertexBufferTooLarge)
    } else if WORD_BYTES * mesh.indices.len() > isize::MAX || mesh.indices.len() > i32::MAX {
        Err(UploadError::IndexBufferTooLarge)
    } else {
        Ok(
            UploadPlan {
                vertex_bytes: (WORD_BYTES * mesh.vertices.len()) as isize,
                index_bytes: (WORD_BYTES * mesh.indices.len()) as isize,
                position: position_attribute(),
                normal: normal_attribute(),
                index_count: mesh.indices.len() as i32,
            },
        )
    }
}

/// Plans the upload of a mesh: both buffers are filled with the words of the
/// mesh as they are, and the two attributes are declared against the stride
/// of six floats.
pub fn plan_upload(mesh: &Mesh) -> (r: Result<UploadPlan, UploadError>)
    ensures
        r == planned(mesh@),
{
    let vertex_words = mesh.vertices().len();
    let index_words = mesh.indices().len();
    if vertex_words > isize::MAX as usize / WORD_BYTES {
        return Err(UploadError::VertexBufferTooLarge);
    }
    if index_words > isize::MAX as usize / WORD_BYTES || index_words > i32::MAX as usize {
        return Err(UploadError::IndexBufferTooLarge);
    }
    Ok(
        UploadPlan {
            vertex_bytes: (WORD_BYTES * vertex_words) as isize,
            index_bytes: (WORD_BYTES * index_words) as isize,
            position: VertexAttribute {
                index: POSITION_ATTRIBUTE,
                components: ATTRIBUTE_COMPONENTS,
                stride: VERTEX_STRIDE,
                offset: 0,
            },
            normal: VertexAttribute {
                index: NORMAL_ATTRIBUTE,
                components: ATTRIBUTE_COMPONENTS,
                stride: VERTEX_STRIDE,
                offset: NORMAL_OFFSET,
            },
            index_count: index_words as i32,
        },
    )
}

/// The two attributes of a plan tile a vertex: the stride is the bytes of
/// six words, the position takes the first three and the normal the last
/// three.
pub proof fn law_attributes_tile_the_vertex(mesh: MeshData)
    requires
        planned(mesh) is Ok,
    ensures
        ({
            let plan = planned(mesh)->Ok_0;
            &&& plan.position.stride == VERTEX_WORDS * WORD_BYTES
            &&& plan.normal.stride == plan.position.stride
            &&& plan.position.offset == 0
            &&& plan.normal.offset == plan.position.offset + plan.position.components * WORD_BYTES
            &&& plan.normal.offset + plan.normal.components * WORD_BYTES == plan.position.stride
            &&& plan.vertex_bytes == mesh.vertices.len() * WORD_BYTES
            &&& plan.index_bytes == mesh.indices.len() * WORD_BYTES
            &&& plan.index_count == mesh.indices.len()
        }),
{
}

/// The geometry of a model on the device: the vertex array, the two buffers
/// behind it, and the number of indices to draw.
#[derive(Clone, Copy, Debug, PartialEq, Eq, Structural)]
pub struct Model {
    vao: VertexArray,
    vbo: Buffer,
    ebo: Buffer,
    indices: i32,
}

/// What to bind and how many indices to read when the model is drawn as
/// indexed triangles.
#[derive(Clone, Copy, Debug, PartialEq, Eq, Structural)]
pub struct DrawCall {
    pub vertex_array: VertexArray,
    pub index_count: i32,
}

/// What to bind and to write when the model is rendered with a shader
/// program: the program, the locations of the two uniforms that change from
/// frame to frame, and the draw call.
#[derive(Clone, Copy, Debug, PartialEq, Eq, Structural)]
pub struct RenderPlan {
    pub program: Program,
    /// Where to write the position of the camera.
    pub camera_position: UniformLocation,
    /// Where to write the model matrix.
    pub model_matrix: UniformLocation,
    pub draw: DrawCall,
}

impl Model {
    pub closed spec fn vertex_array(&self) -> VertexArray {
        self.vao
    }

    pub closed spec fn vertex_buffer(&self) -> Buffer {
        self.vbo
    }

    pub closed spec fn index_buffer(&self) -> Buffer {
        self.ebo
    }

    pub closed spec fn index_count(&self) -> i32 {
        self.indices
    }

    /// The model of the objects that the device gave out for an upload.
    pub fn from_upload(vao: VertexArray, vbo: Buffer, ebo: Buffer, plan: &UploadPlan) -> (model:
        Model)
        ensures
            model.vertex_array() == vao,
            model.vertex_buffer() == vbo,
            model.index_buffer() == ebo,
            model.index_count() == plan.index_count,
    {
        Model { vao, vbo, ebo, indices: plan.index_count }
    }

    /// Plans the rendering of the model with a shader program. The uniforms
    /// are found by their names, `camera_position` and `model_matrix`; one
    /// that the program does not have gets the location that the device
    /// ignores.
    pub fn render(&self, shader: &ShaderProgram) -> (plan: RenderPlan)
        ensures
            plan.program == shader.id(),
            plan.camera_position == shader.location_of("camera_position".spec_bytes()),
            plan.model_matrix == shader.location_of("model_matrix".spec_bytes()),
            plan.draw.vertex_array == self.vertex_array(),
            plan.draw.index_count == self.index_count(),
    {
        RenderPlan {
            program: shader.program(),
            camera_position: shader.uniform_location("camera_position".as_bytes()),
            model_matrix: shader.uniform_location("model_matrix".as_bytes()),
            draw: self.draw_call(),
        }
    }

    /// The draw call of the model.
    pub fn draw_call(&self) -> (call: DrawCall)
        ensures
            call.vertex_array == self.vertex_array(),
            call.index_count == self.index_count(),
    {
        DrawCall { vertex_array: self.vao, index_count: self.indices }
    }
}

impl Default for Model {
    /// The model of no upload: the device's null objects and nothing to draw.
    fn default() -> (model: Model)
        ensures
            model.vertex_array() == VertexArray(0),
            model.vertex_buffer() == Buffer(0),
            model.index_buffer() == Buffer(0),
            model.index_count() == 0,
    {
        Model { vao: VertexArray(0), vbo: Buffer(0), ebo: Buffer(0), indices: 0 }
    }
}

} // verus!
