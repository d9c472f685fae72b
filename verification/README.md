# GainSnap

GainSnap is a stereo gain matcher for audio hosts. While Match is on it measures
the incoming level, as a peak or as RMS, and applies the gain that brings it to a
chosen target; when Match is switched off it holds that gain. A peak guard bounds
every sample, and starting a match fades the old signal down before the new one
comes up.

This repository holds the plug-in with a core that is verified with Verus.

- `src/` is the verified library. Levels, gains and samples are held as IEEE 754
  bit patterns, so that comparing, bounding, selecting and storing them is exact
  integer reasoning. Every function states what it returns or changes, and public
  proof functions state what holds across functions.
- `app/` is ordinary Rust around it: floating-point arithmetic, lock-free stores,
  the CLAP and VST3 adapters and the two editors.
- `tests/` runs the library, with the same arithmetic, on concrete signals.

## How the library is laid out

| module                 | what it decides                                              |
|------------------------|--------------------------------------------------------------|
| `single`, `double`     | order and bounds of bit patterns                             |
| `text`                 | trimming and comparing entered texts                         |
| `params`               | parameters, their ranges, texts and store                    |
| `state`                | project state: payload, versions, restoring                  |
| `status`               | the status that an editor reads                              |
| `timeline`             | parameter events of one block, bounded and in order          |
| `detector`, `history`  | RMS window, and the strongest levels of the recent past      |
| `matcher`, `dsp`       | the model of the gain matcher, and the engine that follows it |
| `frame`                | one stereo frame through the engine                          |
| `runs`                 | what holds over whole frames, blocks and measurements        |
| `buffers`, `host`      | host memory, buses, blocks and automation queues             |
| `editor`, `gui`, `gui_gpui` | what the editors do with input, and what they show      |
| `bundle`               | choices of the Windows bundle build                          |

A frame is a conversation. The library decides what has to be computed next and
asks for it; the caller answers with a number; the library goes on. So the order of
the steps, every branch and every bound are verified, and only the arithmetic of
each answer is left to the caller.
