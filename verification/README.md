# vulkayes_core

Core components of a safe Vulkan abstraction, written in Verus.

- `src/` is the verified library: the data models, validation rules and
  bookkeeping of the Vulkan objects (queue create infos, descriptor writes and
  layouts, pipeline parameters, memory type selection, strided writes into mapped
  memory, the mapping state of allocations, the layout registry of the host
  allocator), each with its contract. Public proof functions state the laws that
  hold across calls.
- `tests/` runs the library on concrete values.
- `app/` is the Vulkan-facing side: the objects that own Vulkan handles and make
  the calls through `ash`, built on the library.
