//! Host-side planning and validation for the WGPU compute provider.
//!
//! Every dispatch the provider encodes is first validated and planned here:
//! strided layouts against their buffers, workgroup grids, reduction trees,
//! FFT strategies and pass schedules, fused-expression metadata, sparse and
//! dense linear-algebra launches, and the uniform records the kernels read.

pub mod elementwise;
pub mod error;
pub mod fft;
pub mod fusion;
pub mod fusion_source;
pub mod kernel_laws;
pub mod kernel_source;
pub mod layout;
pub mod linalg;
pub mod loss;
pub mod loss_kernels;
pub mod pipeline;
pub mod reduction;
pub mod reduction_kernels;
pub mod sparse;
pub mod stencil;
pub mod text;

pub use elementwise::{
    WgpuElementwiseOps, WgpuParameterizedUnaryOps, WgpuRandomOps, WgpuStatefulUpdateOps,
};
pub use error::HephaestusError;
pub use fft::schedule::WgpuFftOps;
pub use fusion::WgpuFusionOps;
pub use layout::{LayoutError, StridedLayout};
pub use linalg::{L2NormScalar, MatmulZero, MatrixIdentityScalar, MatrixRankScalar};
pub use loss::WgpuCrossEntropyOps;
pub use pipeline::{BlockWidth, DispatchGrid};
pub use reduction::{WgpuFullReductionOps, WgpuScanOps};
pub use sparse::{GpuCsrMatrix, PreparedSparseDispatch, WgpuSparseOps};
pub use stencil::{
    BoundaryCondition, Fdtd3dKernel, Laplacian2DKernel, Staggered3DKernel, WgpuFdtd3dOps,
    WgpuStaggered3DOps,
};
