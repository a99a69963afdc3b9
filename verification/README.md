# oar_ocr

The verified core of an OCR pipeline that detects text with a DB model and
reads it with a CRNN model, both run by ONNX Runtime.

- `src/` is verified with Verus: the pipeline builder and its checks, the
  detection defaults per text type, the character dictionary reader, the
  model builders, the decisions of a prediction run (batching, fallback to
  per-image detection, flushing the crop pool, ordering crops by aspect
  ratio, placing recognized regions, assembling per-image results) and the
  character classification used for word boxes. Floating-point values
  travel as IEEE-754 bit patterns (`config::Float32`).
- `app/` is ordinary Rust around it: ONNX Runtime sessions, image tensors,
  floating-point checks, the geometry of word boxes, reading the dictionary
  file, and the loops of a run that call into the library's decisions.
- `tests/` exercises the library.

The image processing stages that come between the models (detection
pre- and postprocessing, cropping, CTC decoding, box sorting) are not part
of this crate, so it does not run a full prediction on its own.
