# leyline

The verified core of Leyline, a virtual WaveRT audio device for Windows.

`src/` is a Verus library. It holds the byte ring buffer that carries audio
between the render and capture paths, the performance-counter arithmetic that
turns elapsed ticks into a byte position without drift, and the decisions the
kernel driver takes in its callbacks: answering kernel-streaming property
requests and describing the filters' property tables, pins, nodes and
connections, negotiating data formats, answering interface queries and counting
references on the miniport objects, tracking stream state and stream buffers,
completing control requests (with the control device's names and queue
setup), and running its setup sequences. Each function
works on plain values and states its result in its contract; the laws of the
ring buffer, the arithmetic and the protocols are proof functions beside the
code they speak of.

`app/` is the driver around it: the kernel calls (WDF, ACX, memory manager,
performance counter) and the conversions between kernel structures and the
library's types. It needs the Windows Driver Kit to build.

`tests/` runs the library on concrete values.
