//! Named tensor metadata and the input and output bindings of a run.

use vstd::prelude::*;
use crate::data_type::DataType;
use crate::tensor::{Dims, TensorIOMode};
use crate::text::owned;

verus! {

/// Summary of a TensorRT engine I/O tensor.
#[derive(Debug, Eq, PartialEq)]
pub struct TensorInfo {
    pub name: String,
    pub shape: Dims,
    pub data_type: DataType,
    pub io_mode: TensorIOMode,
}

/// The value of a `TensorInfo`: its name's characters, its extents, its type
/// and its I/O mode.
pub struct TensorInfoView {
    pub name: Seq<char>,
    pub shape: Seq<i64>,
    pub data_type: DataType,
    pub io_mode: TensorIOMode,
}

impl View for TensorInfo {
    type V = TensorInfoView;

    open spec fn view(&self) -> TensorInfoView {
        TensorInfoView {
            name: self.name@,
            shape: self.shape@,
            data_type: self.data_type,
            io_mode: self.io_mode,
        }
    }
}

/// The values of a sequence of tensor metadata.
pub open spec fn views_of(ts: Seq<TensorInfo>) -> Seq<TensorInfoView> {
    ts.map_values(|t: TensorInfo| t@)
}

impl Clone for TensorInfo {
    fn clone(&self) -> (r: Self)
        ensures
            r@ == self@,
    {
        TensorInfo {
            name: self.name.clone(),
            shape: self.shape.clone(),
            data_type: self.data_type,
            io_mode: self.io_mode,
        }
    }
}

impl TensorInfo {
    /// Metadata whose I/O mode is not known (`Unknown(-1)`).
    pub fn new(name: &str, shape: Dims, data_type: DataType) -> (r: Self)
        ensures
            r@ == (TensorInfoView {
                name: name@,
                shape: shape@,
                data_type,
                io_mode: TensorIOMode::Unknown(-1i32),
            }),
    {
        TensorInfo { name: owned(name), shape, data_type, io_mode: TensorIOMode::Unknown(-1) }
    }

    /// Metadata with every field given.
    pub fn with_io_mode(name: &str, data_type: DataType, shape: Dims, io_mode: TensorIOMode) -> (r: Self)
        ensures
            r@ == (TensorInfoView { name: name@, shape: shape@, data_type, io_mode }),
    {
        TensorInfo { name: owned(name), shape, data_type, io_mode }
    }

    /// The tensor's name and shape, for shape inference.
    pub fn shape_info(&self) -> (r: TensorShape<'_>)
        ensures
            r.name@ == self.name@,
            r.shape@ == self.shape@,
    {
        TensorShape::new(self.name.as_str(), self.shape.clone())
    }
}

/// Memory location expected for a host input binding.
#[derive(Clone, Copy, Debug, Eq, PartialEq, Structural)]
pub enum TensorLocation {
    Device,
    Host,
}

/// Named tensor shape used for TensorRT shape inference.
#[derive(Debug, Eq, PartialEq)]
pub struct TensorShape<'a> {
    pub name: &'a str,
    pub shape: Dims,
}

impl<'a> TensorShape<'a> {
    /// A named shape.
    pub fn new(name: &'a str, shape: Dims) -> (r: Self)
        ensures
            r.name == name,
            r.shape@ == shape@,
    {
        TensorShape { name, shape }
    }
}

impl<'a> Clone for TensorShape<'a> {
    fn clone(&self) -> (r: Self)
        ensures
            r.name == self.name,
            r.shape@ == self.shape@,
    {
        TensorShape { name: self.name, shape: self.shape.clone() }
    }
}

/// Named host input buffer.
#[derive(Debug)]
pub struct HostInputTensor<'a> {
    pub name: &'a str,
    pub expected_data_type: Option<DataType>,
    pub shape: Dims,
    pub bytes: &'a [u8],
    pub location: TensorLocation,
}

impl<'a> HostInputTensor<'a> {
    /// A host input of unchecked type, staged to the device.
    pub fn new(name: &'a str, shape: Dims, bytes: &'a [u8]) -> (r: Self)
        ensures
            r.name == name,
            r.expected_data_type is None,
            r.shape@ == shape@,
            r.bytes == bytes,
            r.location == TensorLocation::Device,
    {
        HostInputTensor { name, expected_data_type: None, shape, bytes, location: TensorLocation::Device }
    }

    /// A host input whose type is checked against the engine, staged to the
    /// device.
    pub fn with_data_type(name: &'a str, data_type: DataType, shape: Dims, bytes: &'a [u8]) -> (r: Self)
        ensures
            r.name == name,
            r.expected_data_type == Some(data_type),
            r.shape@ == shape@,
            r.bytes == bytes,
            r.location == TensorLocation::Device,
    {
        HostInputTensor {
            name,
            expected_data_type: Some(data_type),
            shape,
            bytes,
            location: TensorLocation::Device,
        }
    }

    /// The same input with another location.
    pub fn with_location(self, location: TensorLocation) -> (r: Self)
        ensures
            r.name == self.name,
            r.expected_data_type == self.expected_data_type,
            r.shape@ == self.shape@,
            r.bytes == self.bytes,
            r.location == location,
    {
        HostInputTensor { location, ..self }
    }

    /// The input's name and shape.
    pub fn shape_info(&self) -> (r: TensorShape<'a>)
        ensures
            r.name == self.name,
            r.shape@ == self.shape@,
    {
        TensorShape::new(self.name, self.shape.clone())
    }
}

impl<'a> Clone for HostInputTensor<'a> {
    fn clone(&self) -> (r: Self)
        ensures
            r.name == self.name,
            r.expected_data_type == self.expected_data_type,
            r.shape@ == self.shape@,
            r.bytes == self.bytes,
            r.location == self.location,
    {
        HostInputTensor {
            name: self.name,
            expected_data_type: self.expected_data_type,
            shape: self.shape.clone(),
            bytes: self.bytes,
            location: self.location,
        }
    }
}

/// Named device input buffer: `ptr` is the CUDA device address, `bytes` the
/// length of the allocation behind it.
#[derive(Debug)]
pub struct DeviceInputTensor<'a> {
    pub name: &'a str,
    pub data_type: DataType,
    pub shape: Dims,
    pub ptr: usize,
    pub bytes: usize,
}

impl<'a> DeviceInputTensor<'a> {
    /// A device input.
    pub fn new(name: &'a str, data_type: DataType, shape: Dims, ptr: usize, bytes: usize) -> (r: Self)
        ensures
            r.name == name,
            r.data_type == data_type,
            r.shape@ == shape@,
            r.ptr == ptr,
            r.bytes == bytes,
    {
        DeviceInputTensor { name, data_type, shape, ptr, bytes }
    }

    /// The input's name and shape.
    pub fn shape_info(&self) -> (r: TensorShape<'a>)
        ensures
            r.name == self.name,
            r.shape@ == self.shape@,
    {
        TensorShape::new(self.name, self.shape.clone())
    }
}

impl<'a> Clone for DeviceInputTensor<'a> {
    fn clone(&self) -> (r: Self)
        ensures
            r.name == self.name,
            r.data_type == self.data_type,
            r.shape@ == self.shape@,
            r.ptr == self.ptr,
            r.bytes == self.bytes,
    {
        DeviceInputTensor {
            name: self.name,
            data_type: self.data_type,
            shape: self.shape.clone(),
            ptr: self.ptr,
            bytes: self.bytes,
        }
    }
}

/// Named device output buffer: `ptr` is the CUDA device address, `bytes` the
/// length of the allocation behind it.
#[derive(Debug)]
pub struct DeviceOutputTensor<'a> {
    pub name: &'a str,
    pub data_type: DataType,
    pub shape: Dims,
    pub ptr: usize,
    pub bytes: usize,
}

impl<'a> DeviceOutputTensor<'a> {
    /// A device output.
    pub fn new(name: &'a str, data_type: DataType, shape: Dims, ptr: usize, bytes: usize) -> (r: Self)
        ensures
            r.name == name,
            r.data_type == data_type,
            r.shape@ == shape@,
            r.ptr == ptr,
            r.bytes == bytes,
    {
        DeviceOutputTensor { name, data_type, shape, ptr, bytes }
    }
}

impl<'a> Clone for DeviceOutputTensor<'a> {
    fn clone(&self) -> (r: Self)
        ensures
            r.name == self.name,
            r.data_type == self.data_type,
            r.shape@ == self.shape@,
            r.ptr == self.ptr,
            r.bytes == self.bytes,
    {
        DeviceOutputTensor {
            name: self.name,
            data_type: self.data_type,
            shape: self.shape.clone(),
            ptr: self.ptr,
            bytes: self.bytes,
        }
    }
}

/// Named TensorRT input binding backed by host memory, staged host memory,
/// or a caller-owned CUDA device pointer.
#[derive(Debug)]
pub enum InputBinding<'a> {
    /// Host pointer bound directly to TensorRT.
    Host(HostInputTensor<'a>),
    /// Host bytes copied to a temporary CUDA buffer before enqueue.
    HostToDevice(HostInputTensor<'a>),
    /// Caller-owned CUDA device pointer bound directly to TensorRT.
    Device(DeviceInputTensor<'a>),
}

impl<'a> InputBinding<'a> {
    /// A typed host input bound as a host pointer.
    pub fn host(name: &'a str, data_type: DataType, shape: Dims, bytes: &'a [u8]) -> (r: Self)
        ensures
            r matches InputBinding::Host(t) && t.name == name && t.expected_data_type == Some(
                data_type,
            ) && t.shape@ == shape@ && t.bytes == bytes && t.location == TensorLocation::Host,
    {
        InputBinding::Host(
            HostInputTensor::with_data_type(name, data_type, shape, bytes).with_location(
                TensorLocation::Host,
            ),
        )
    }

    /// A typed host input staged to a temporary device buffer.
    pub fn host_to_device(name: &'a str, data_type: DataType, shape: Dims, bytes: &'a [u8]) -> (r: Self)
        ensures
            r matches InputBinding::HostToDevice(t) && t.name == name && t.expected_data_type
                == Some(data_type) && t.shape@ == shape@ && t.bytes == bytes && t.location
                == TensorLocation::Device,
    {
        InputBinding::HostToDevice(
            HostInputTensor::with_data_type(name, data_type, shape, bytes).with_location(
                TensorLocation::Device,
            ),
        )
    }

    /// A device input.
    pub fn device(name: &'a str, data_type: DataType, shape: Dims, ptr: usize, bytes: usize) -> (r: Self)
        ensures
            r matches InputBinding::Device(t) && t.name == name && t.data_type == data_type
                && t.shape@ == shape@ && t.ptr == ptr && t.bytes == bytes,
    {
        InputBinding::Device(DeviceInputTensor::new(name, data_type, shape, ptr, bytes))
    }

    /// The binding of a host input, by its location: host pointer or staged.
    pub fn from_host_input(input: HostInputTensor<'a>) -> (r: Self)
        ensures
            input.location == TensorLocation::Host ==> r == InputBinding::Host(input),
            input.location == TensorLocation::Device ==> r == InputBinding::HostToDevice(input),
    {
        match input.location {
            TensorLocation::Host => InputBinding::Host(input),
            TensorLocation::Device => InputBinding::HostToDevice(input),
        }
    }

    /// The binding of a device input.
    pub fn from_device_input(input: DeviceInputTensor<'a>) -> (r: Self)
        ensures
            r == InputBinding::Device(input),
    {
        InputBinding::Device(input)
    }

    /// The bound tensor's name.
    pub fn name(&self) -> (r: &'a str)
        ensures
            r == spec_binding_name(*self),
    {
        match self {
            InputBinding::Host(input) | InputBinding::HostToDevice(input) => input.name,
            InputBinding::Device(input) => input.name,
        }
    }

    /// The bound tensor's name and shape.
    pub fn shape_info(&self) -> (r: TensorShape<'a>)
        ensures
            r.name == spec_binding_name(*self),
            r.shape@ == spec_binding_shape(*self),
    {
        match self {
            InputBinding::Host(input) | InputBinding::HostToDevice(input) => input.shape_info(),
            InputBinding::Device(input) => input.shape_info(),
        }
    }
}

/// The name of the tensor a binding feeds.
pub open spec fn spec_binding_name<'a>(b: InputBinding<'a>) -> &'a str {
    match b {
        InputBinding::Host(t) | InputBinding::HostToDevice(t) => t.name,
        InputBinding::Device(t) => t.name,
    }
}

/// The shape a binding declares.
pub open spec fn spec_binding_shape<'a>(b: InputBinding<'a>) -> Seq<i64> {
    match b {
        InputBinding::Host(t) | InputBinding::HostToDevice(t) => t.shape@,
        InputBinding::Device(t) => t.shape@,
    }
}

} // verus!
