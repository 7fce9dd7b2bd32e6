# karma

The portable core of Karma, a local screen-content protection agent, written in Verus:
every function in `src/` carries a contract that Verus proves.

- `src/` is the library. Frames and their preparation (`frame`, `preparation`), scheduling
  and the latest-frame mailbox (`scheduler`, `mailbox`), word packs and OCR text
  (`word_pack`, `word_pack_document`, `ocr_text`, `ctc`), observations, recognition policy
  and inference health (`observation`, `recognition`, `health`, `agent`), the IPC protocol
  (`ipc`), model and bundle contracts (`manifest`, `image_manifest`, `assets`,
  `ocr_contract`, `ocr_manifest`, `engines`, `detection_mask`, `reference_tensor`), the
  order of an OCR pass over the detected boxes (`ocr_pass`), OCR profile selection (`ocr_profile`,
  `benchmark`), process disposition and its steps (`disposition`), the service console's view of
  the service (`service_console`), startup probing (`startup`), the
  encrypted evidence format (`evidence`), console authentication (`console`) and the agent
  watchdog's decisions (`watchdog`).
- Calls into `sha2`, `aes-gcm`, `argon2`, `rand`, `regex`, `unicode-normalization` and
  `zeroize` go through small trusted wrappers; their contracts state what the call returns,
  name it where it is a function of the arguments alone, or state only what holds of every
  outcome where it is random.
- `app/` holds what the library does not: file and JSON I/O, clocks, threads and locks,
  ONNX Runtime sessions (`ort`), and the floating-point stages of inference (tensor
  building, detection maps, text-box geometry with `imageproc`, CTC scoring), which call
  the library for their integer checks and session signature checks. The OCR engine there
  runs each pass one action at a time as `ocr_pass` decides, and the OCR bundle loader
  reads the files and hands their bytes to `ocr_manifest::accept_ocr_bundle`.
- Not in the library: running the ONNX sessions and comparing their `f32` reference
  outputs, reading bundle files from disk, and the service host's loop (its storage, pipe
  and watchdog); the per-answer decisions of that loop are `ipc::complete_disposition` and
  `ipc::shutdown_authorized`.
- Not in this crate at all: the Windows agent's capture loop and `main`, the Windows
  service host, and the Tauri console UI. Their decisions are in the library
  (`startup`, `agent`, `watchdog`, `ipc`, `service_console`, `console`); the Windows capture,
  pipes, threads, JPEG encoding and the UI itself are not.
- `tests/` exercises the library through its public interface.
