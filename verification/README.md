# jaka-cli

The decisions of a driver for JAKA robot arms, written in Rust and proved with
Verus.

The library in `src/` makes no controller call and does no floating-point
arithmetic. It says which calls a command makes and in which order, decides from
what they returned, reads and answers the control protocol, and says what one
frame of gamepad input sends. Where a motion takes several answers, a state
machine asks for one thing at a time: the caller does it or computes it, and
hands the result back. Floats are held as their 64-bit patterns and compared
exactly.

| module       | what it holds                                                     |
|--------------|-------------------------------------------------------------------|
| `number`     | floats by their bit patterns: order, clamping, rounding            |
| `text`       | words, trimming, joining, numbers in decimal                       |
| `json`       | the JSON documents that are written, and partial writes            |
| `sdk`        | the data of the controller SDK and its error codes                 |
| `steps`      | controller calls, how they end, lists of them                      |
| `kinematics` | limits and tolerances, the joint search, path checks, clamping     |
| `power`      | power, servos and the emergency stop                               |
| `move_to`    | moving the TCP with joint motions and probing                      |
| `base_move`  | moving the TCP in straight lines relative to the base pose         |
| `command`    | the commands of the driver                                         |
| `plan`       | what a dry run and the status command say                          |
| `drive`      | what each command does, and the connection around it               |
| `notes`      | what the log says while a command runs                             |
| `jog`        | continuous motion of single axes                                   |
| `protocol`   | the control protocol, its server and the simulated robot           |
| `gamepad`    | the gamepad side of the control protocol                           |

Every public function states in its contract what it returns. The public proof
functions state what holds across them: that the emergency stop blocks motion,
that `move_to` never aims a motion below the safe height, that the axes stop
before power is switched or the arm goes home and however a client leaves, that
clamping ends at the nearest reachable point, that what the gamepad sends is what
the server understands, and so on.

`app/` holds the programs: the command line, the SDK behind its C interface, the
arithmetic on poses, the TCP server and the gamepad. They need the JAKA SDK
library `libjakaAPI` and, for the gamepad, `libudev`.
