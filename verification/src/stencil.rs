use crate::error::{message_of, HephaestusError};
use crate::pipeline::{ceil_div, covering_domain, domain_fits, DispatchGrid};
use crate::text::{decimal, decimal_spec};
use vstd::prelude::*;

verus! {

/// Boundary condition applied by the 2D Laplacian stencil.
#[derive(Debug, Clone, Copy, PartialEq, Eq, Structural)]
pub enum BoundaryCondition {
    /// Homogeneous Dirichlet: `u = 0` on boundaries.
    Dirichlet,
    /// Homogeneous Neumann: the normal derivative vanishes on boundaries.
    Neumann,
    /// Periodic wrapping across domain boundaries.
    Periodic,
}

/// The shader code of a boundary condition.
pub open spec fn boundary_code(bc: BoundaryCondition) -> u32 {
    match bc {
        BoundaryCondition::Dirichlet => 0,
        BoundaryCondition::Neumann => 1,
        BoundaryCondition::Periodic => 2,
    }
}

impl BoundaryCondition {
    /// The code the WGSL kernel switches on.
    pub fn as_u32(self) -> (code: u32)
        ensures
            code == boundary_code(self),
    {
        match self {
            BoundaryCondition::Dirichlet => 0,
            BoundaryCondition::Neumann => 1,
            BoundaryCondition::Periodic => 2,
        }
    }
}

/// Workgroup shape of the 2D Laplacian kernel.
pub const LAPLACIAN_WORKGROUP: [usize; 3] = [8, 8, 1];

/// Workgroup shape of the staggered 3D kernels.
pub const STAGGERED_WORKGROUP: [usize; 3] = [4, 4, 4];

/// The integer uniforms of a 2D Laplacian over an `nx x ny` grid:
/// `(nx, ny, boundary code, 0)`; both axes need at least two points.
pub fn laplacian_dims(nx: u32, ny: u32, bc: BoundaryCondition) -> (r: Result<[u32; 4], HephaestusError>)
    ensures
        r is Ok <==> nx >= 2 && ny >= 2,
        r is Ok ==> r->Ok_0[0] == nx && r->Ok_0[1] == ny && r->Ok_0[2] == boundary_code(bc)
            && r->Ok_0[3] == 0,
        r is Err ==> r->Err_0 is InvalidConfiguration && message_of(r->Err_0)
            == "Laplacian grid axes must contain at least two points: nx="@ + decimal_spec(nx as nat)
            + ", ny="@ + decimal_spec(ny as nat),
{
    if nx < 2 || ny < 2 {
        let mut message = String::from_str(
            "Laplacian grid axes must contain at least two points: nx=",
        );
        let a = decimal(nx as u64);
        message.append(a.as_str());
        message.append(", ny=");
        let b = decimal(ny as u64);
        message.append(b.as_str());
        return Err(HephaestusError::InvalidConfiguration { message });
    }
    Ok([nx, ny, bc.as_u32(), 0])
}

/// Compiled 2D Laplacian stencil kernel; `K` is the device's compiled
/// kernel handle.
#[derive(Debug)]
pub struct Laplacian2DKernel<K> {
    kernel: K,
}

impl<K> Laplacian2DKernel<K> {
    /// The compiled kernel this wraps.
    pub closed spec fn spec_kernel(&self) -> K {
        self.kernel
    }

    /// Wrap a compiled kernel.
    pub fn new(kernel: K) -> (k: Self)
        ensures
            k.spec_kernel() == kernel,
    {
        Laplacian2DKernel { kernel }
    }

    /// The compiled kernel.
    pub fn kernel(&self) -> (k: &K)
        ensures
            *k == self.spec_kernel(),
    {
        &self.kernel
    }

    /// The grid of one dispatch over an `nx x ny` grid whose input and
    /// output buffers hold `input_len` and `output_len` values. Buffers of
    /// different lengths are refused as a failed dispatch, and nothing is
    /// dispatched.
    pub fn dispatch_grid(&self, input_len: usize, output_len: usize, nx: u32, ny: u32) -> (r: Result<
        DispatchGrid,
        HephaestusError,
    >)
        ensures
            input_len != output_len ==> r is Err && r->Err_0 is DispatchFailed && message_of(r->Err_0)
                == "Laplacian input length "@ + decimal_spec(input_len as nat)
                + " does not match output length "@ + decimal_spec(output_len as nat),
            input_len == output_len ==> r is Ok && r->Ok_0 == (DispatchGrid {
                x: ceil_div(nx as int, 8) as u32,
                y: ceil_div(ny as int, 8) as u32,
                z: 1,
            }),
    {
        if input_len != output_len {
            let mut message = String::from_str("Laplacian input length ");
            let a = decimal(input_len as u64);
            message.append(a.as_str());
            message.append(" does not match output length ");
            let b = decimal(output_len as u64);
            message.append(b.as_str());
            return Err(HephaestusError::DispatchFailed { message });
        }
        assert(domain_fits([nx as usize, ny as usize, 1], LAPLACIAN_WORKGROUP)) by (nonlinear_arith)
            requires
                nx <= u32::MAX,
                ny <= u32::MAX,
        ;
        assert(ceil_div(1, 1) == 1);
        covering_domain([nx as usize, ny as usize, 1], LAPLACIAN_WORKGROUP)
    }
}

/// Compiled staggered 3D gradient and divergence kernels.
#[derive(Debug)]
pub struct Staggered3DKernel<K> {
    gradient: K,
    divergence: K,
}

impl<K> Staggered3DKernel<K> {
    /// The compiled gradient kernel.
    pub closed spec fn spec_gradient(&self) -> K {
        self.gradient
    }

    /// The compiled divergence kernel.
    pub closed spec fn spec_divergence(&self) -> K {
        self.divergence
    }

    /// Wrap the compiled pair.
    pub fn new(gradient: K, divergence: K) -> (k: Self)
        ensures
            k.spec_gradient() == gradient,
            k.spec_divergence() == divergence,
    {
        Staggered3DKernel { gradient, divergence }
    }

    /// The compiled gradient kernel.
    pub fn gradient_kernel(&self) -> (k: &K)
        ensures
            *k == self.spec_gradient(),
    {
        &self.gradient
    }

    /// The compiled divergence kernel.
    pub fn divergence_kernel(&self) -> (k: &K)
        ensures
            *k == self.spec_divergence(),
    {
        &self.divergence
    }

    /// The grid of one dispatch over a grid of `dims` points.
    pub fn dispatch_grid(&self, dims: [u32; 3]) -> (g: DispatchGrid)
        ensures
            g.x == ceil_div(dims[0] as int, 4) && g.y == ceil_div(dims[1] as int, 4) && g.z
                == ceil_div(dims[2] as int, 4),
    {
        let domain = [dims[0] as usize, dims[1] as usize, dims[2] as usize];
        assert(domain_fits(domain, STAGGERED_WORKGROUP)) by (nonlinear_arith)
            requires
                domain[0] <= u32::MAX,
                domain[1] <= u32::MAX,
                domain[2] <= u32::MAX,
        ;
        match covering_domain(domain, STAGGERED_WORKGROUP) {
            Ok(g) => g,
            Err(_) => {
                proof {
                    assert(false);
                }
                DispatchGrid { x: 0, y: 0, z: 0 }
            },
        }
    }
}

/// Provider-owned staggered 3D stencil operators.
#[derive(Clone, Copy, Debug, Default)]
pub struct WgpuStaggered3DOps;

/// Workgroup shape of the FDTD kernels.
pub const FDTD_WORKGROUP: [usize; 3] = [8, 8, 4];

/// Compiled velocity and pressure update kernels of the 3D acoustic FDTD.
#[derive(Debug)]
pub struct Fdtd3dKernel<K> {
    velocity: K,
    pressure: K,
}

impl<K> Fdtd3dKernel<K> {
    /// The compiled velocity update.
    pub closed spec fn spec_velocity(&self) -> K {
        self.velocity
    }

    /// The compiled pressure update.
    pub closed spec fn spec_pressure(&self) -> K {
        self.pressure
    }

    /// Wrap the compiled pair.
    pub fn new(velocity: K, pressure: K) -> (k: Self)
        ensures
            k.spec_velocity() == velocity,
            k.spec_pressure() == pressure,
    {
        Fdtd3dKernel { velocity, pressure }
    }

    /// The compiled velocity update.
    pub fn velocity_kernel(&self) -> (k: &K)
        ensures
            *k == self.spec_velocity(),
    {
        &self.velocity
    }

    /// The compiled pressure update.
    pub fn pressure_kernel(&self) -> (k: &K)
        ensures
            *k == self.spec_pressure(),
    {
        &self.pressure
    }

    /// The grid both updates of one step use over an `nx x ny x nz` grid.
    pub fn dispatch_grid(&self, nx: u32, ny: u32, nz: u32) -> (g: DispatchGrid)
        ensures
            g.x == ceil_div(nx as int, 8) && g.y == ceil_div(ny as int, 8) && g.z == ceil_div(
                nz as int,
                4,
            ),
    {
        let domain = [nx as usize, ny as usize, nz as usize];
        assert(domain_fits(domain, FDTD_WORKGROUP)) by (nonlinear_arith)
            requires
                domain[0] <= u32::MAX,
                domain[1] <= u32::MAX,
                domain[2] <= u32::MAX,
        ;
        match covering_domain(domain, FDTD_WORKGROUP) {
            Ok(g) => g,
            Err(_) => {
                proof {
                    assert(false);
                }
                DispatchGrid { x: 0, y: 0, z: 0 }
            },
        }
    }
}

/// Zero-sized provider of the 3D acoustic FDTD operations.
#[derive(Clone, Copy, Debug, Default)]
pub struct WgpuFdtd3dOps;

} // verus!
