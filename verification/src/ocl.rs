//! The miner factory: one OpenCL-backed miner per available compute device.
//!
//! Device enumeration and device queries go through the `dynamic_ocl` crate
//! behind small trusted wrappers; everything decided from their results — the
//! disabled-mining short cut, the per-device construction, the aggregation —
//! is verified. An [`OclMiner`] owns one device handle exclusively together
//! with its tuning; the kernel itself runs outside the library, driven by the
//! verified run-loop session.

use crate::model::Address;
use crate::model::MinerConfig;
use crate::session::SessionState;
use vstd::prelude::*;

verus! {

#[verifier::external_type_specification]
#[verifier::external_body]
pub struct ExPlatform(dynamic_ocl::platform::Platform);

#[verifier::external_type_specification]
#[verifier::external_body]
pub struct ExDevice(dynamic_ocl::device::Device);

#[verifier::external_type_specification]
#[verifier::external_body]
pub struct ExOclError(dynamic_ocl::Error);

/// Why a miner, or the whole factory call, failed.
#[derive(Debug)]
pub enum MinerError {
    /// The system OpenCL library could not be loaded; the message is the
    /// dynamic loader's.
    LoadError(String),
    /// An OpenCL API call failed during enumeration or device setup.
    OclError(dynamic_ocl::Error),
}

/// Relies on dynamic_ocl::load_opencl and
/// dynamic_ocl::platform::Platform::get_platforms: loading binds the system
/// OpenCL library's symbols (raw calls made before a successful load would
/// panic, so the load comes first and its failure is surfaced as an error),
/// and the platform query lists the OpenCL platforms the system offers.
/// Which platforms exist depends on the machine, so nothing is promised of
/// the outcome.
#[verifier::external_body]
fn ocl_platforms() -> (r: Result<Vec<dynamic_ocl::platform::Platform>, MinerError>) {
    if let Err(e) = dynamic_ocl::load_opencl() {
        return Err(MinerError::LoadError(format!("{}", e)));
    }
    match dynamic_ocl::platform::Platform::get_platforms() {
        Ok(platforms) => Ok(platforms),
        Err(e) => Err(MinerError::OclError(e)),
    }
}

/// Relies on dynamic_ocl::platform::Platform::get_devices
/// (clGetDeviceIDs): lists the devices of the platform, of every device
/// type. Which devices exist depends on the machine, so nothing is promised
/// of the outcome. Must only run once the OpenCL library is loaded, which
/// every caller guarantees by reaching this call through a successful
/// platform enumeration.
#[verifier::external_body]
fn ocl_platform_devices(platform: &dynamic_ocl::platform::Platform) -> (r: Result<
    Vec<dynamic_ocl::device::Device>,
    dynamic_ocl::Error,
>) {
    platform.get_devices(dynamic_ocl::device::DeviceType::ALL)
}

/// Relies on dynamic_ocl::device::Device::name (clGetDeviceInfo with
/// CL_DEVICE_NAME): queries the device's human-readable name. The name is
/// the driver's, so nothing is promised of its content. Must only run once
/// the OpenCL library is loaded, which every caller guarantees by reaching
/// this call through a successful platform enumeration.
#[verifier::external_body]
fn ocl_device_name(device: &dynamic_ocl::device::Device) -> (r: Result<
    String,
    dynamic_ocl::Error,
>) {
    match device.name() {
        Ok(name) => Ok(name.to_string_lossy().into_owned()),
        Err(e) => Err(e),
    }
}

/// One mining backend bound to one OpenCL device. It owns the device handle
/// exclusively and the tuning its run-loop sessions start from; the handle is
/// never shared between miners.
pub struct OclMiner {
    /// The exclusively owned OpenCL device handle.
    pub device: dynamic_ocl::device::Device,
    /// The device's name, as the driver reported it at construction.
    pub name: String,
    /// The desired duration of one kernel batch, in microseconds.
    pub target_kernel_micros: u64,
    /// The upper bound on the per-batch work size, in nonces.
    pub max_worksize: u64,
}

impl OclMiner {
    /// The miner's tuning is the configuration's, with each bound forced
    /// positive so that a run-loop session is always well-formed.
    pub open spec fn tuned_to(self, opts: MinerConfig) -> bool {
        &&& self.target_kernel_micros == if opts.target_kernel_micros >= 1 {
            opts.target_kernel_micros as int
        } else {
            1
        }
        &&& self.max_worksize == if opts.max_worksize >= 1 {
            opts.max_worksize as int
        } else {
            1
        }
    }

    /// Bind a miner to one device: query the device's name and keep the
    /// handle and the relevant tuning. Fails exactly when the device query
    /// fails — a fatal condition for this device only.
    pub fn new(device: dynamic_ocl::device::Device, opts: &MinerConfig) -> (r: Result<
        OclMiner,
        MinerError,
    >)
        ensures
            r matches Ok(m) ==> m.tuned_to(*opts) && m.device == device,
    {
        let name = match ocl_device_name(&device) {
            Ok(name) => name,
            Err(e) => {
                return Err(MinerError::OclError(e));
            },
        };
        Ok(
            OclMiner {
                device,
                name,
                target_kernel_micros: if opts.target_kernel_micros >= 1 {
                    opts.target_kernel_micros
                } else {
                    1
                },
                max_worksize: if opts.max_worksize >= 1 {
                    opts.max_worksize as u64
                } else {
                    1
                },
            },
        )
    }

    /// A stable, human-readable identification of the backing device; free
    /// of side effects and callable at any point of the miner's life.
    pub fn describe(&self) -> (r: String)
        ensures
            r@ == self.name@,
    {
        self.name.clone()
    }

    /// A fresh run-loop session scoped to this miner's tuning, searching on
    /// behalf of the given address.
    pub fn session(&self, address: Address) -> (s: SessionState)
        ensures
            s.wf(),
            s.address == address,
            s.target is None,
            s.batch_size == 1,
            s.target_kernel_micros == if self.target_kernel_micros >= 1 {
                self.target_kernel_micros as int
            } else {
                1
            },
            s.max_worksize == if self.max_worksize >= 1 {
                self.max_worksize as int
            } else {
                1
            },
    {
        SessionState::new(address, self.target_kernel_micros, self.max_worksize)
    }
}

/// Build one miner per device, in order and each bound to its own device,
/// propagating the first per-device construction failure to the caller
/// (construction is not retried and no device is silently skipped). Zero
/// devices yield zero miners and no error.
pub fn miners_for_devices(devices: Vec<dynamic_ocl::device::Device>, opts: &MinerConfig) -> (r:
    Result<Vec<OclMiner>, MinerError>)
    ensures
        r matches Ok(miners) ==> {
            &&& miners@.len() == devices@.len()
            &&& forall|i: int|
                #![trigger miners@[i]]
                0 <= i < miners@.len() ==> miners@[i].tuned_to(*opts) && miners@[i].device
                    == devices@[i]
        },
        devices@.len() == 0 ==> r is Ok,
{
    let mut miners: Vec<OclMiner> = Vec::new();
    let mut remaining = devices;
    while remaining.len() > 0
        invariant
            miners@.len() + remaining@.len() == devices@.len(),
            remaining@ == devices@.skip(miners@.len() as int),
            forall|i: int|
                #![trigger miners@[i]]
                0 <= i < miners@.len() ==> miners@[i].tuned_to(*opts) && miners@[i].device
                    == devices@[i],
        decreases remaining@.len(),
    {
        let ghost built = miners@.len() as int;
        let device = remaining.remove(0);
        proof {
            assert(devices@.skip(built)[0] == devices@[built]);
            assert(remaining@ =~= devices@.skip(built + 1));
        }
        match OclMiner::new(device, opts) {
            Ok(miner) => {
                let ghost pre = miners@;
                miners.push(miner);
                proof {
                    assert forall|i: int| 0 <= i < miners@.len() implies miners@[i].tuned_to(*opts)
                        && miners@[i].device == devices@[i] by {
                        if i < built {
                            assert(pre[i].tuned_to(*opts) && pre[i].device == devices@[i]);
                            assert(miners@[i] == pre[i]);
                        } else {
                            assert(miners@[i] == miner);
                        }
                    }
                }
            },
            Err(e) => {
                return Err(e);
            },
        }
    }
    Ok(miners)
}

/// Turn configuration into the set of miners to dispatch, one per available
/// OpenCL device. With mining disabled the collection is empty and no device
/// is touched; otherwise platform enumeration failures and per-device
/// construction failures surface as errors, and zero available devices yield
/// an empty collection.
pub fn create_miners(opts: MinerConfig) -> (r: Result<Vec<OclMiner>, MinerError>)
    ensures
        !opts.use_gpu ==> (r matches Ok(miners) && miners@.len() == 0),
        r matches Ok(miners) ==> forall|i: int|
            0 <= i < miners@.len() ==> miners@[i].tuned_to(opts),
{
    if !opts.use_gpu {
        return Ok(Vec::new());
    }
    let platforms = match ocl_platforms() {
        Ok(platforms) => platforms,
        Err(e) => {
            return Err(e);
        },
    };
    let mut devices: Vec<dynamic_ocl::device::Device> = Vec::new();
    let mut i: usize = 0;
    while i < platforms.len()
        invariant
            i <= platforms@.len(),
            opts.use_gpu,
        decreases platforms@.len() - i,
    {
        match ocl_platform_devices(&platforms[i]) {
            Ok(mut found) => devices.append(&mut found),
            Err(e) => {
                return Err(MinerError::OclError(e));
            },
        }
        i = i + 1;
    }
    miners_for_devices(devices, &opts)
}

} // verus!
