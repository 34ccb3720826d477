# imp_sample

An on-screen-display sample for the Ingenic IMP camera SDK: a GC2053 sensor
feeds the frame source, channel 0 passes through an OSD group that draws a
timestamp, a logo, a cover and a rectangle, and the encoded streams are
saved under `/tmp`.

- `src/` is the verified library. It decides every call the sample makes
  (`sequence`, run step by step by `runner`), the channel table
  (`config`), the encoder attributes (`encoder`), the OSD regions (`osd`),
  the timestamp picture (`timestamp`), the stream file names and pack
  writing (`stream`), and the two ways of saving streams as step machines
  (`capture` for the loop of one thread per channel, `poll` for the loop
  that waits on the encoder descriptors, set-up and tear-down included).
- `app/` is the program around it: the SDK's C declarations, the calls
  themselves, files, threads, the waits on descriptors and the clock; each
  loop there asks the library for the next step and reports the result.
