# cckeyboard

The input logic of a three-key USB HID keyboard for the STM32F411, written
in Verus with its contracts proved.

- `src/` is the verified library: `button` (idle-level sampling and
  debouncing of one key), `morse` (dot/dash decoding), `keymap` (what each
  gesture sends in each mode), `modes` (the mode selector and the decision of
  what a gesture does), `usb_hid` (keystrokes and the HID reports they are
  sent as), `board` (the clock settings that give USB its 48 MHz).
- `app/` holds the hardware side: pin and clock setup through `stm32-hal2`,
  the USB device through `usb-device` and `usbd-hid`, and the execution of
  the effects that the library decides.
- `tests/` runs the library on the key maps, selector sequences, Morse codes
  and report sequences.
