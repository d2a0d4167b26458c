# Capsense

Capsense repurposes the CapsLock key on Windows: a short tap switches the input
method, a long press keeps CapsLock's own behaviour.

- `src/` is the verified library: the CapsLock state machine of the keyboard
  hook (`hook`), the rotation through keyboard layouts (`layout`), key names and
  shortcut key events (`keys`), the Chinese input-method sync (`ime`), settings
  (`config`), texts (`i18n`), UTF-16 strings (`wide`), start-on-login status
  handling (`startup`), the manager window's decisions (`manager`), the hidden
  window's commands (`ipc`), command-line decisions (`cli`), the console front
  end (`ui`) and text helpers (`text`).
- `app/` is the Windows program around it: the hook, windows, registry and
  process calls, and the settings file.
- `tests/` runs the library on concrete inputs.
