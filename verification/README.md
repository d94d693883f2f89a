# VoiceDown

VoiceDown records the sound of one window, transcribes it while it runs, has a language model improve
the transcript, and writes the recording and its texts to disk.

The library in `src/` is verified with Verus. It holds the rules of the program: what a line of the
recognition process means, when text is punctuated or sent to the model, how rewritten batches are
put together so that nothing is lost, which files are written and what stands in them, how the process
is brought back when it dies. It works on plain values. Where something has to be done outside, a
state machine says what, and takes back what came of it.

The program in `app/` does what is said: it talks to the audio device, to the process, to files, to the
network and to the user's window. It needs `tauri` and `tauri-plugin-shell` besides the crates that
`Cargo.toml` lists.

## The library

| Module | What it is about |
| --- | --- |
| `text` | strings as sequences of characters |
| `segmentation` | paragraphs and sentences |
| `text_optimizer` | batches of sentences, and the text that rewritten batches make |
| `optimizer_session` | improving the transcript of one recording |
| `llm_backend` | what the language models are sent and what they answer |
| `punc_pipeline`, `punc_session` | when the text is punctuated, and what is shown |
| `asr_session` | the recognition of one recording |
| `asr_supervisor` | keeping the recognition process alive |
| `python_bridge` | the protocol of the recognition process |
| `json`, `clock` | the values of `serde_json`, and the clocks |
| `audio_capture` | samples, chunks, and the state of a recording |
| `wav_render` | WAV files |
| `capture_finalizer` | what is left to do when a recording ends |
| `export_config` | what is written, and where |
| `json_config_store` | configurations |
| `dictionary`, `text_postprocess`, `t2s_data` | the user's words, and simplified characters |
| `time_util` | dates and time stamps |
| `window_selector` | the windows to choose from |
| `commands` | what the user asks for, and what is answered |

Each function says in its `ensures` what it does. What holds of several functions together stands at
the end of each module as a proof function, under the heading "Laws".

What is believed without proof are the contracts of a few functions of the standard library,
`serde_json`, `reqwest` and `crossbeam-channel`. Each of them names the function and says what is
claimed of it.
